//! Device context and collaborator models.
//!
//! The ingress engine routes completed frames to three collaborators: the
//! application manager staging a firmware load, the notification store, and
//! the device clock a time syscall sets.  Their internals are outside this
//! core's scope; what the engine relies on — capacities, what a write or a
//! reset does, when a call is refused — is modelled and verified here.

use vstd::prelude::*;
use crate::buffer::copy_bytes;
use crate::errors::AppError;
use crate::errors::NotificationError;

verus! {

/// A staged checksum is exactly this many bytes.
pub const CHECKSUM_SIZE: usize = 2;

/// How many firmware bytes can be staged for one load.
pub const RAM_CAPACITY: usize = 4096;

/// How many notifications the store holds at most.
pub const NOTIFICATION_CAPACITY: usize = 8;

/// Cumulative offsets of the field boundaries inside a notification body:
/// where the source ends, where the title ends, and where the body ends.
#[derive(Debug, Copy, Clone, PartialEq, Eq, Structural)]
pub struct SectionIndices {
    pub source_end: usize,
    pub title_end: usize,
    pub body_end: usize,
}

/// A stored notification: its body bytes and their field boundaries.
pub struct Notification {
    pub data: Vec<u8>,
    pub sections: SectionIndices,
}

/// The mathematical content of a stored notification.
#[verifier::ext_equal]
pub struct NoteModel {
    pub data: Seq<u8>,
    pub sections: SectionIndices,
}

/// A snapshot of the application manager, for diagnostics.
#[derive(Debug, Copy, Clone, PartialEq, Eq, Structural)]
pub struct StatusInfo {
    pub checksum_len: usize,
    pub ram_len: usize,
    pub verified: bool,
}

/// The mathematical content of the application manager.
#[verifier::ext_equal]
pub struct AppModel {
    pub checksum: Seq<u8>,
    pub ram: Seq<u8>,
    pub verified: bool,
}

/// Whether a staged load is complete: a full checksum and at least one
/// firmware byte.
pub open spec fn load_complete(m: AppModel) -> bool {
    m.checksum.len() == CHECKSUM_SIZE && m.ram.len() > 0
}

/// Stages one firmware load: the declared checksum and the firmware bytes,
/// written incrementally, then verified as a whole.
pub struct ApplicationManager {
    /// The checksum bytes declared for the staged load.
    pub checksum: Vec<u8>,
    /// The staged firmware bytes.
    pub ram: Vec<u8>,
    /// Whether the last verification found a complete load.
    pub verified: bool,
}

impl ApplicationManager {
    pub open spec fn model(&self) -> AppModel {
        AppModel { checksum: self.checksum@, ram: self.ram@, verified: self.verified }
    }

    pub open spec fn wf(&self) -> bool {
        self.checksum@.len() <= CHECKSUM_SIZE && self.ram@.len() <= RAM_CAPACITY
    }

    /// A manager with nothing staged.
    pub fn new() -> (r: Self)
        ensures
            r.wf(),
            r.model() == (AppModel { checksum: Seq::<u8>::empty(), ram: Seq::<u8>::empty(), verified: false }),
    {
        ApplicationManager { checksum: Vec::new(), ram: Vec::new(), verified: false }
    }

    /// Abandons any staged load.
    pub fn kill(&mut self) -> (r: Result<(), AppError>)
        ensures
            final(self).wf(),
            r == Ok::<(), AppError>(()),
            final(self).model() == (AppModel {
                checksum: Seq::<u8>::empty(),
                ram: Seq::<u8>::empty(),
                verified: false,
            }),
    {
        self.checksum.clear();
        self.ram.clear();
        self.verified = false;
        Ok(())
    }

    /// Stages one checksum byte; refused once the checksum is complete.
    pub fn write_checksum_byte(&mut self, byte: u8) -> (r: Result<(), AppError>)
        requires
            old(self).wf(),
        ensures
            final(self).wf(),
            old(self).checksum@.len() < CHECKSUM_SIZE ==> {
                &&& r == Ok::<(), AppError>(())
                &&& final(self).model() == (AppModel {
                    checksum: old(self).checksum@.push(byte),
                    ..old(self).model()
                })
            },
            old(self).checksum@.len() >= CHECKSUM_SIZE ==> {
                &&& r == Err::<(), AppError>(AppError::ChecksumFull)
                &&& final(self).model() == old(self).model()
            },
    {
        if self.checksum.len() < CHECKSUM_SIZE {
            self.checksum.push(byte);
            Ok(())
        } else {
            Err(AppError::ChecksumFull)
        }
    }

    /// Stages one firmware byte; refused once the staging memory is full.
    pub fn write_ram_byte(&mut self, byte: u8) -> (r: Result<(), AppError>)
        requires
            old(self).wf(),
        ensures
            final(self).wf(),
            old(self).ram@.len() < RAM_CAPACITY ==> {
                &&& r == Ok::<(), AppError>(())
                &&& final(self).model() == (AppModel {
                    ram: old(self).ram@.push(byte),
                    ..old(self).model()
                })
            },
            old(self).ram@.len() >= RAM_CAPACITY ==> {
                &&& r == Err::<(), AppError>(AppError::RamFull)
                &&& final(self).model() == old(self).model()
            },
    {
        if self.ram.len() < RAM_CAPACITY {
            self.ram.push(byte);
            Ok(())
        } else {
            Err(AppError::RamFull)
        }
    }

    /// Checks the staged load for completeness and records the outcome;
    /// a failure is surfaced to the caller and in the status.
    pub fn verify(&mut self) -> (r: Result<(), AppError>)
        ensures
            final(self).wf() == old(self).wf(),
            final(self).checksum@ == old(self).checksum@,
            final(self).ram@ == old(self).ram@,
            final(self).verified == load_complete(old(self).model()),
            r == (if load_complete(old(self).model()) {
                Ok::<(), AppError>(())
            } else {
                Err::<(), AppError>(AppError::VerifyFailed)
            }),
    {
        if self.checksum.len() == CHECKSUM_SIZE && self.ram.len() > 0 {
            self.verified = true;
            Ok(())
        } else {
            self.verified = false;
            Err(AppError::VerifyFailed)
        }
    }

    /// The staged load's lengths and verification outcome, for diagnostics.
    pub fn status(&self) -> (r: StatusInfo)
        ensures
            r.checksum_len == self.checksum@.len(),
            r.ram_len == self.ram@.len(),
            r.verified == self.verified,
    {
        StatusInfo {
            checksum_len: self.checksum.len(),
            ram_len: self.ram.len(),
            verified: self.verified,
        }
    }
}

/// Fixed-capacity store of received notifications.
pub struct NotificationManager {
    pub notes: Vec<Notification>,
}

impl NotificationManager {
    pub open spec fn model(&self) -> Seq<NoteModel> {
        self.notes@.map_values(|n: Notification| NoteModel { data: n.data@, sections: n.sections })
    }

    /// An empty store.
    pub fn new() -> (r: Self)
        ensures
            r.model() == Seq::<NoteModel>::empty(),
    {
        let r = NotificationManager { notes: Vec::new() };
        assert(r.model() =~= Seq::<NoteModel>::empty());
        r
    }

    /// Stores a copy of a completed notification body with its section
    /// boundaries; refused when the store is full.
    pub fn add(&mut self, data: &Vec<u8>, sections: SectionIndices) -> (r: Result<
        (),
        NotificationError,
    >)
        ensures
            old(self).model().len() < NOTIFICATION_CAPACITY ==> {
                &&& r == Ok::<(), NotificationError>(())
                &&& final(self).model() == old(self).model().push(
                    NoteModel { data: data@, sections },
                )
            },
            old(self).model().len() >= NOTIFICATION_CAPACITY ==> {
                &&& r == Err::<(), NotificationError>(NotificationError::StorageFull)
                &&& final(self).model() == old(self).model()
            },
    {
        if self.notes.len() < NOTIFICATION_CAPACITY {
            let copied = copy_bytes(data);
            self.notes.push(Notification { data: copied, sections });
            assert(self.model() =~= old(self).model().push(NoteModel { data: data@, sections }));
            Ok(())
        } else {
            Err(NotificationError::StorageFull)
        }
    }
}

/// The device's wall-clock time.
#[derive(Debug, Copy, Clone, PartialEq, Eq, Structural)]
pub struct ClockTime {
    pub hours: u8,
    pub minutes: u8,
    pub seconds: u8,
}

/// One completed frame handed to the dispatcher, as the specification sees
/// it: its type and its body as accumulated in the frame buffer.
pub enum DispatchRecord {
    Application,
    Notification { body: Seq<u8>, sections: SectionIndices },
    Syscall { body: Seq<u8> },
}

/// The mathematical content of the device context.
#[verifier::ext_equal]
pub struct SystemModel {
    pub app: AppModel,
    pub notes: Seq<NoteModel>,
    pub clock: ClockTime,
    pub dispatches: Seq<DispatchRecord>,
}

/// The device context the engine dispatches into: the collaborators and,
/// as a ghost trace, every dispatch made so far.
pub struct System {
    pub am: ApplicationManager,
    pub nm: NotificationManager,
    pub clock: ClockTime,
    /// The trace of completed-frame dispatches, oldest first.
    pub dispatches: Ghost<Seq<DispatchRecord>>,
}

impl System {
    pub open spec fn model(&self) -> SystemModel {
        SystemModel {
            app: self.am.model(),
            notes: self.nm.model(),
            clock: self.clock,
            dispatches: self.dispatches@,
        }
    }

    pub open spec fn wf(&self) -> bool {
        self.am.wf()
    }

    /// A fresh context: nothing staged, nothing stored, clock at zero,
    /// no dispatch yet.
    pub fn new() -> (r: Self)
        ensures
            r.wf(),
            r.model() == (SystemModel {
                app: AppModel { checksum: Seq::<u8>::empty(), ram: Seq::<u8>::empty(), verified: false },
                notes: Seq::<NoteModel>::empty(),
                clock: ClockTime { hours: 0, minutes: 0, seconds: 0 },
                dispatches: Seq::<DispatchRecord>::empty(),
            }),
    {
        System {
            am: ApplicationManager::new(),
            nm: NotificationManager::new(),
            clock: ClockTime { hours: 0, minutes: 0, seconds: 0 },
            dispatches: Ghost(Seq::empty()),
        }
    }
}

} // verus!

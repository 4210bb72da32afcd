//! The ingress framing and dispatch engine.
//!
//! A producer appends raw link bytes to the bounded queue; `process` drains
//! the queue through a resumable state machine that recognizes frame and
//! field delimiters, accumulates the frame body, decodes the hex-encoded
//! firmware path, and dispatches each completed frame to its collaborator.
//!
//! The engine's behaviour is stated against a mathematical model: `step`
//! says what one byte does to the engine and the device context, `run`
//! folds `step` over a byte sequence, and `process` is proved to realize
//! exactly that fold over the queued bytes.

use vstd::prelude::*;
use crate::buffer::Buffer;
use crate::buffer::BUFFER_CAPACITY;
use crate::buffer::MessageType;
use crate::buffer::TYPE_APPLICATION;
use crate::buffer::TYPE_NOTIFICATION;
use crate::buffer::TYPE_SYSCALL;
use crate::buffer::classify_spec;
use crate::errors::IngressError;
use crate::hex::HexDecoder;
use crate::hex::is_hex_digit;
use crate::hex::hex_pair_value;
use crate::queue::ByteQueue;
use crate::queue::QUEUE_CAPACITY;
use crate::queue::queue_contents;
use crate::queue::queue_dequeue;
use crate::queue::queue_enqueue;
use crate::queue::queue_new;
use crate::syscall::Syscall;
use crate::syscall::syscall_parse_spec;
use crate::system::AppModel;
use crate::system::CHECKSUM_SIZE;
use crate::system::ClockTime;
use crate::system::DispatchRecord;
use crate::system::NOTIFICATION_CAPACITY;
use crate::system::NoteModel;
use crate::system::RAM_CAPACITY;
use crate::system::SectionIndices;
use crate::system::System;
use crate::system::SystemModel;
use crate::system::load_complete;

verus! {

/// Frame start and resynchronization point.
pub const STX: u8 = 2;

/// Frame end; triggers dispatch of the completed frame.
pub const ETX: u8 = 3;

/// Field separator (unit separator); its meaning depends on the frame type.
pub const FIELD_SEPARATOR: u8 = 31;

/// The engine's processing state.
#[derive(Debug, Copy, Clone, PartialEq, Eq, Structural)]
pub enum State {
    /// Waiting for a frame start; bytes are link noise and are discarded.
    Wait,
    /// A frame has started but its type byte has not arrived yet.
    Init,
    /// Generic body capture for types without sub-fields.
    Payload,
    /// Reading the hex-encoded checksum of an application load.
    ApplicationChecksum,
    /// Reading the hex-encoded firmware bytes of an application load.
    ApplicationStore,
    /// Reading a notification's source field.
    NotificationSource,
    /// Reading a notification's title field.
    NotificationTitle,
    /// Reading a notification's body field.
    NotificationBody,
}

/// The mathematical state of the framing engine, without the byte queue.
#[verifier::ext_equal]
pub struct IngressModel {
    pub state: State,
    pub btype: MessageType,
    pub buf: Seq<u8>,
    pub hex_pending: Option<u8>,
    pub nsi0: usize,
    pub nsi1: usize,
    pub nsi_idx: usize,
}

/// What a frame start does: the prior partial frame is discarded, the hex
/// accumulator and section cursor reset, and the engine made ready to read
/// the type byte.
pub open spec fn reset_on_start(m: IngressModel) -> IngressModel {
    IngressModel {
        state: State::Init,
        btype: MessageType::Unknown,
        buf: Seq::empty(),
        hex_pending: None,
        nsi_idx: 0,
        ..m
    }
}

/// What dispatching a completed frame does to the device context: an
/// application load is verified, a notification stored (unless the store
/// is full) with its section boundaries stamped, a syscall parsed and, if
/// well formed, executed; and the dispatch is traced.
pub open spec fn dispatch_model(m: IngressModel, s: SystemModel) -> SystemModel {
    match m.btype {
        MessageType::Unknown => s,
        MessageType::Application => SystemModel {
            app: AppModel { verified: load_complete(s.app), ..s.app },
            dispatches: s.dispatches.push(DispatchRecord::Application),
            ..s
        },
        MessageType::Notification => {
            let sections = SectionIndices {
                source_end: m.nsi0,
                title_end: m.nsi1,
                body_end: m.nsi_idx,
            };
            SystemModel {
                notes: if s.notes.len() < NOTIFICATION_CAPACITY {
                    s.notes.push(NoteModel { data: m.buf, sections })
                } else {
                    s.notes
                },
                dispatches: s.dispatches.push(
                    DispatchRecord::Notification { body: m.buf, sections },
                ),
                ..s
            }
        },
        MessageType::Syscall => {
            let s2 = match syscall_parse_spec(m.buf) {
                Some(Syscall::SetTime { hours, minutes, seconds }) => SystemModel {
                    clock: ClockTime { hours, minutes, seconds },
                    ..s
                },
                None => s,
            };
            SystemModel {
                dispatches: s2.dispatches.push(DispatchRecord::Syscall { body: m.buf }),
                ..s2
            }
        },
    }
}

/// What one non-delimiter byte does, by the current state.  `None` is the
/// fatal case: the frame buffer's capacity would be exceeded.
pub open spec fn step_body(m: IngressModel, s: SystemModel, b: u8) -> Option<
    (IngressModel, SystemModel),
> {
    match m.state {
        State::Wait => Some((m, s)),
        State::Init => {
            let t = classify_spec(b);
            Some(
                (
                    IngressModel {
                        btype: t,
                        state: if t == MessageType::Unknown {
                            State::Wait
                        } else {
                            State::Init
                        },
                        ..m
                    },
                    s,
                ),
            )
        },
        State::Payload => {
            if m.buf.len() < BUFFER_CAPACITY {
                Some((IngressModel { buf: m.buf.push(b), ..m }, s))
            } else {
                None
            }
        },
        State::NotificationSource | State::NotificationTitle | State::NotificationBody => {
            if m.buf.len() < BUFFER_CAPACITY {
                Some(
                    (
                        IngressModel {
                            buf: m.buf.push(b),
                            nsi_idx: (m.nsi_idx + 1) as usize,
                            ..m
                        },
                        s,
                    ),
                )
            } else {
                None
            }
        },
        State::ApplicationChecksum | State::ApplicationStore => {
            match m.hex_pending {
                None => Some((IngressModel { hex_pending: Some(b), ..m }, s)),
                Some(h) => {
                    let m2 = IngressModel { hex_pending: None, ..m };
                    if is_hex_digit(h) && is_hex_digit(b) {
                        let v = hex_pair_value(h, b) as u8;
                        if m.state == State::ApplicationChecksum {
                            if s.app.checksum.len() < CHECKSUM_SIZE {
                                Some(
                                    (
                                        m2,
                                        SystemModel {
                                            app: AppModel {
                                                checksum: s.app.checksum.push(v),
                                                ..s.app
                                            },
                                            ..s
                                        },
                                    ),
                                )
                            } else {
                                Some((IngressModel { state: State::Wait, ..m2 }, s))
                            }
                        } else {
                            if s.app.ram.len() < RAM_CAPACITY {
                                Some(
                                    (
                                        m2,
                                        SystemModel {
                                            app: AppModel { ram: s.app.ram.push(v), ..s.app },
                                            ..s
                                        },
                                    ),
                                )
                            } else {
                                Some((IngressModel { state: State::Wait, ..m2 }, s))
                            }
                        }
                    } else {
                        Some((IngressModel { state: State::Wait, ..m2 }, s))
                    }
                },
            }
        },
    }
}

/// What one byte does to the engine and the device context.  Delimiters
/// are recognized before the state dispatch; `None` is the fatal
/// frame-buffer overflow.
pub open spec fn step(m: IngressModel, s: SystemModel, b: u8) -> Option<
    (IngressModel, SystemModel),
> {
    if b == STX {
        Some((reset_on_start(m), s))
    } else if b == ETX {
        let m2 = IngressModel { state: State::Wait, ..m };
        if m.state != State::Wait {
            Some((m2, dispatch_model(m, s)))
        } else {
            Some((m2, s))
        }
    } else if b == FIELD_SEPARATOR {
        match m.btype {
            MessageType::Unknown => Some((IngressModel { state: State::Wait, ..m }, s)),
            MessageType::Application => {
                if m.state == State::ApplicationChecksum {
                    Some((IngressModel { state: State::ApplicationStore, ..m }, s))
                } else {
                    Some(
                        (
                            IngressModel { state: State::ApplicationChecksum, ..m },
                            SystemModel {
                                app: AppModel {
                                    checksum: Seq::empty(),
                                    ram: Seq::empty(),
                                    verified: false,
                                },
                                ..s
                            },
                        ),
                    )
                }
            },
            MessageType::Notification => {
                if m.state == State::NotificationSource {
                    Some(
                        (IngressModel { nsi0: m.nsi_idx, state: State::NotificationTitle, ..m }, s),
                    )
                } else if m.state == State::NotificationTitle {
                    Some(
                        (IngressModel { nsi1: m.nsi_idx, state: State::NotificationBody, ..m }, s),
                    )
                } else {
                    Some((IngressModel { state: State::NotificationSource, ..m }, s))
                }
            },
            MessageType::Syscall => Some((IngressModel { state: State::Payload, ..m }, s)),
        }
    } else {
        step_body(m, s, b)
    }
}

/// Folds `step` over a byte sequence, oldest byte first.
pub open spec fn run(m: IngressModel, s: SystemModel, bytes: Seq<u8>) -> Option<
    (IngressModel, SystemModel),
>
    decreases bytes.len(),
{
    if bytes.len() == 0 {
        Some((m, s))
    } else {
        match step(m, s, bytes[0]) {
            None => None,
            Some((m2, s2)) => run(m2, s2, bytes.drop_first()),
        }
    }
}

/// The ingress engine: the byte queue, the frame buffer, the state machine
/// and the hex accumulator.
pub struct IngressManager {
    /// The frame being accumulated, with its classified type.
    pub buffer: Buffer,
    /// The bounded queue the producer writes into.
    pub rb: ByteQueue,
    /// The current state of the framing state machine.
    pub state: State,
    /// The hex-pair accumulator of the application path.
    pub hex: HexDecoder,
    /// Where a notification's source field ends.
    pub nsi0: usize,
    /// Where a notification's title field ends.
    pub nsi1: usize,
    /// The notification section cursor: bytes seen since the frame start.
    pub nsi_idx: usize,
}

impl IngressManager {
    /// The engine's framing state as the model sees it.
    pub open spec fn model(&self) -> IngressModel {
        IngressModel {
            state: self.state,
            btype: self.buffer.btype,
            buf: self.buffer.data@,
            hex_pending: self.hex.model(),
            nsi0: self.nsi0,
            nsi1: self.nsi1,
            nsi_idx: self.nsi_idx,
        }
    }

    /// The buffer respects its capacity, the section cursor never runs
    /// ahead of the buffer, and the queue never exceeds its capacity.
    pub open spec fn wf(&self) -> bool {
        &&& self.buffer.wf()
        &&& self.nsi_idx <= self.buffer.data@.len()
        &&& queue_contents(self.rb).len() <= QUEUE_CAPACITY
    }

    /// Constructs a new IngressManager.
    pub fn new() -> (r: Self)
        ensures
            r.wf(),
            r.model() == (IngressModel {
                state: State::Init,
                btype: MessageType::Unknown,
                buf: Seq::<u8>::empty(),
                hex_pending: None::<u8>,
                nsi0: 0usize,
                nsi1: 0usize,
                nsi_idx: 0usize,
            }),
            queue_contents(r.rb) == Seq::<u8>::empty(),
    {
        IngressManager {
            buffer: Buffer::new(),
            rb: queue_new(),
            state: State::Init,
            hex: HexDecoder::new(),
            nsi0: 0,
            nsi1: 0,
            nsi_idx: 0,
        }
    }

    /// Appends raw link bytes to the queue.  The bytes fit as long as the
    /// unconsumed backlog stays within the queue's capacity; the first byte
    /// that does not fit is an overflow, fatal for the link, and the bytes
    /// from it on are dropped.
    pub fn write(&mut self, data: &[u8]) -> (r: Result<(), IngressError>)
        requires
            old(self).wf(),
        ensures
            final(self).wf(),
            final(self).model() == old(self).model(),
            queue_contents(old(self).rb).len() + data@.len() <= QUEUE_CAPACITY ==> {
                &&& r == Ok::<(), IngressError>(())
                &&& queue_contents(final(self).rb) == queue_contents(old(self).rb) + data@
            },
            queue_contents(old(self).rb).len() + data@.len() > QUEUE_CAPACITY ==> {
                &&& r == Err::<(), IngressError>(IngressError::QueueOverflow)
                &&& queue_contents(final(self).rb) == queue_contents(old(self).rb) + data@.take(
                    QUEUE_CAPACITY - queue_contents(old(self).rb).len(),
                )
            },
    {
        let ghost q0 = queue_contents(self.rb);
        let mut i: usize = 0;
        while i < data.len()
            invariant
                i <= data@.len(),
                self.wf(),
                self.model() == old(self).model(),
                q0 == queue_contents(old(self).rb),
                queue_contents(self.rb) == q0 + data@.take(i as int),
                queue_contents(self.rb).len() == q0.len() + i,
            decreases data@.len() - i,
        {
            let ok = queue_enqueue(&mut self.rb, data[i]);
            if !ok {
                assert(q0 + data@.take(i as int) == q0 + data@.take(
                    QUEUE_CAPACITY - q0.len(),
                ));
                return Err(IngressError::QueueOverflow);
            }
            i = i + 1;
            assert(queue_contents(self.rb) == q0 + data@.take(i as int)) by {
                assert(data@.take(i as int) == data@.take(i - 1).push(data@[i - 1]));
                assert((q0 + data@.take(i - 1)).push(data@[i - 1]) == q0 + data@.take(
                    i as int,
                ));
            }
        }
        assert(data@.take(data@.len() as int) == data@);
        Ok(())
    }

    /// Based on the type byte, determine the type of the incoming payload.
    pub fn determine_type(&mut self, type_byte: u8) -> (r: MessageType)
        requires
            old(self).wf(),
        ensures
            final(self).wf(),
            r == classify_spec(type_byte),
            final(self).model() == (IngressModel {
                btype: classify_spec(type_byte),
                ..old(self).model()
            }),
            queue_contents(final(self).rb) == queue_contents(old(self).rb),
    {
        let t = if type_byte == TYPE_NOTIFICATION {
            MessageType::Notification
        } else if type_byte == TYPE_SYSCALL {
            MessageType::Syscall
        } else if type_byte == TYPE_APPLICATION {
            MessageType::Application
        } else {
            MessageType::Unknown
        };
        self.buffer.btype = t;
        t
    }

    /// Routes a completed, recognized frame to its collaborator and traces
    /// the dispatch; a frame of unknown type is not dispatched.
    fn dispatch_frame(&self, system: &mut System)
        requires
            self.wf(),
            old(system).wf(),
        ensures
            final(system).wf(),
            final(system).model() == dispatch_model(self.model(), old(system).model()),
    {
        match self.buffer.btype {
            MessageType::Unknown => {},
            MessageType::Application => {
                let _ = system.am.verify();
                system.dispatches = Ghost(
                    system.dispatches@.push(DispatchRecord::Application),
                );
            },
            MessageType::Notification => {
                let sections = SectionIndices {
                    source_end: self.nsi0,
                    title_end: self.nsi1,
                    body_end: self.nsi_idx,
                };
                let _ = system.nm.add(&self.buffer.data, sections);
                system.dispatches = Ghost(
                    system.dispatches@.push(
                        DispatchRecord::Notification { body: self.buffer.data@, sections },
                    ),
                );
            },
            MessageType::Syscall => {
                match Syscall::parse(&self.buffer.data) {
                    Ok(sc) => sc.execute(system),
                    Err(_) => {},
                }
                system.dispatches = Ghost(
                    system.dispatches@.push(
                        DispatchRecord::Syscall { body: self.buffer.data@ },
                    ),
                );
            },
        }
    }

    /// Runs one non-delimiter byte through the current state's handler.
    fn run_state_machine(&mut self, byte: u8, system: &mut System) -> (r: Result<
        (),
        IngressError,
    >)
        requires
            old(self).wf(),
            old(system).wf(),
            byte != STX,
            byte != ETX,
            byte != FIELD_SEPARATOR,
        ensures
            final(self).wf(),
            final(system).wf(),
            queue_contents(final(self).rb) == queue_contents(old(self).rb),
            match step_body(old(self).model(), old(system).model(), byte) {
                Some((m2, s2)) => {
                    &&& r == Ok::<(), IngressError>(())
                    &&& final(self).model() == m2
                    &&& final(system).model() == s2
                },
                None => r == Err::<(), IngressError>(IngressError::BufferFull),
            },
    {
        match self.state {
            State::Init => {
                let t = self.determine_type(byte);
                if t == MessageType::Unknown {
                    self.state = State::Wait;
                }
                Ok(())
            },
            State::Payload => {
                match self.buffer.write(byte) {
                    Ok(()) => Ok(()),
                    Err(e) => Err(e),
                }
            },
            State::NotificationSource | State::NotificationTitle | State::NotificationBody => {
                match self.buffer.write(byte) {
                    Ok(()) => {
                        self.nsi_idx = self.nsi_idx + 1;
                        Ok(())
                    },
                    Err(e) => Err(e),
                }
            },
            State::ApplicationChecksum | State::ApplicationStore => {
                match self.hex.feed(byte) {
                    Ok(None) => Ok(()),
                    Ok(Some(v)) => {
                        if self.state == State::ApplicationChecksum {
                            match system.am.write_checksum_byte(v) {
                                Ok(()) => {},
                                Err(_) => {
                                    self.state = State::Wait;
                                },
                            }
                        } else {
                            match system.am.write_ram_byte(v) {
                                Ok(()) => {},
                                Err(_) => {
                                    self.state = State::Wait;
                                },
                            }
                        }
                        Ok(())
                    },
                    Err(_) => {
                        self.state = State::Wait;
                        Ok(())
                    },
                }
            },
            State::Wait => Ok(()),
        }
    }

    /// Runs one queued byte through the engine: delimiters first, then the
    /// current state's handler; a frame end dispatches the completed frame.
    fn handle_byte(&mut self, byte: u8, system: &mut System) -> (r: Result<(), IngressError>)
        requires
            old(self).wf(),
            old(system).wf(),
        ensures
            final(self).wf(),
            final(system).wf(),
            queue_contents(final(self).rb) == queue_contents(old(self).rb),
            match step(old(self).model(), old(system).model(), byte) {
                Some((m2, s2)) => {
                    &&& r == Ok::<(), IngressError>(())
                    &&& final(self).model() == m2
                    &&& final(system).model() == s2
                },
                None => r == Err::<(), IngressError>(IngressError::BufferFull),
            },
    {
        if byte == STX {
            self.hex.reset();
            self.nsi_idx = 0;
            self.buffer.clear();
            self.state = State::Init;
            Ok(())
        } else if byte == ETX {
            let in_frame = self.state != State::Wait;
            self.state = State::Wait;
            if in_frame {
                self.dispatch_frame(system);
            }
            Ok(())
        } else if byte == FIELD_SEPARATOR {
            match self.buffer.btype {
                MessageType::Unknown => {
                    self.state = State::Wait;
                },
                MessageType::Application => {
                    if self.state == State::ApplicationChecksum {
                        self.state = State::ApplicationStore;
                    } else {
                        let _ = system.am.kill();
                        self.state = State::ApplicationChecksum;
                    }
                },
                MessageType::Notification => {
                    if self.state == State::NotificationSource {
                        self.nsi0 = self.nsi_idx;
                        self.state = State::NotificationTitle;
                    } else if self.state == State::NotificationTitle {
                        self.nsi1 = self.nsi_idx;
                        self.state = State::NotificationBody;
                    } else {
                        self.state = State::NotificationSource;
                    }
                },
                MessageType::Syscall => {
                    self.state = State::Payload;
                },
            }
            Ok(())
        } else {
            self.run_state_machine(byte, system)
        }
    }

    /// Drains the queue through the state machine, dispatching each
    /// completed frame to the device context as its frame end arrives.
    /// Processing an empty queue changes nothing.  The fatal frame-buffer
    /// overflow stops the drain and parks the engine waiting for a frame
    /// start.
    pub fn process(&mut self, system: &mut System) -> (r: Result<(), IngressError>)
        requires
            old(self).wf(),
            old(system).wf(),
        ensures
            final(self).wf(),
            final(system).wf(),
            match run(
                old(self).model(),
                old(system).model(),
                queue_contents(old(self).rb),
            ) {
                Some((m2, s2)) => {
                    &&& r == Ok::<(), IngressError>(())
                    &&& final(self).model() == m2
                    &&& final(system).model() == s2
                    &&& queue_contents(final(self).rb).len() == 0
                },
                None => {
                    &&& r == Err::<(), IngressError>(IngressError::BufferFull)
                    &&& final(self).state == State::Wait
                },
            },
    {
        let ghost m0 = self.model();
        let ghost s0 = system.model();
        let ghost q0 = queue_contents(self.rb);
        loop
            invariant
                self.wf(),
                system.wf(),
                m0 == old(self).model(),
                s0 == old(system).model(),
                q0 == queue_contents(old(self).rb),
                run(m0, s0, q0) == run(self.model(), system.model(), queue_contents(self.rb)),
            decreases queue_contents(self.rb).len(),
        {
            let ghost q_pre = queue_contents(self.rb);
            match queue_dequeue(&mut self.rb) {
                None => {
                    return Ok(());
                },
                Some(byte) => {
                    assert(q_pre == seq![q_pre[0]] + q_pre.drop_first());
                    match self.handle_byte(byte, system) {
                        Ok(()) => {},
                        Err(e) => {
                            self.state = State::Wait;
                            return Err(e);
                        },
                    }
                },
            }
        }
    }
}

} // verus!

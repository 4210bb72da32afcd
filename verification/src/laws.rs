//! Laws of the framing engine.
//!
//! These proof functions state, over the engine's byte-step model, what the
//! protocol guarantees: a well-formed frame of a recognized type is
//! dispatched exactly once with its body intact, an unrecognized type is
//! never dispatched, a frame start discards any partial frame, and an empty
//! queue is a no-op.  `process` is proved to realize `run`, so each law
//! carries over to the executable engine.

use vstd::prelude::*;
use crate::buffer::BUFFER_CAPACITY;
use crate::buffer::MessageType;
use crate::buffer::TYPE_APPLICATION;
use crate::buffer::TYPE_NOTIFICATION;
use crate::buffer::TYPE_SYSCALL;
use crate::buffer::classify_spec;
use crate::hex::hex_decode_pairs;
use crate::hex::hex_pair_value;
use crate::hex::is_hex_digit;
use crate::ingress_manager::ETX;
use crate::ingress_manager::FIELD_SEPARATOR;
use crate::ingress_manager::IngressModel;
use crate::ingress_manager::STX;
use crate::ingress_manager::State;
use crate::ingress_manager::dispatch_model;
use crate::ingress_manager::reset_on_start;
use crate::ingress_manager::run;
use crate::ingress_manager::step;
use crate::syscall::Syscall;
use crate::syscall::syscall_parse_spec;
use crate::system::AppModel;
use crate::system::CHECKSUM_SIZE;
use crate::system::ClockTime;
use crate::system::DispatchRecord;
use crate::system::NOTIFICATION_CAPACITY;
use crate::system::NoteModel;
use crate::system::RAM_CAPACITY;
use crate::system::SectionIndices;
use crate::system::SystemModel;

verus! {

/// Whether a byte is one of the three delimiters the engine recognizes
/// before any state dispatch.
pub open spec fn is_delimiter(b: u8) -> bool {
    b == STX || b == ETX || b == FIELD_SEPARATOR
}

/// Whether a byte sequence is plain body text: free of all delimiters.
pub open spec fn delimiter_free(s: Seq<u8>) -> bool {
    forall|i: int| 0 <= i < s.len() ==> !is_delimiter(#[trigger] s[i])
}

/// One step of `run`, made explicit for chained proofs.
pub proof fn lemma_run_unfold(m: IngressModel, s: SystemModel, bytes: Seq<u8>)
    requires
        bytes.len() > 0,
    ensures
        run(m, s, bytes) == (match step(m, s, bytes[0]) {
            Some((m2, s2)) => run(m2, s2, bytes.drop_first()),
            None => None::<(IngressModel, SystemModel)>,
        }),
{
}

/// Running the engine over a concatenation runs it over the first part,
/// then over the second from where the first left off; a fatal overflow in
/// the first part is fatal for the whole.
pub proof fn lemma_run_append(m: IngressModel, s: SystemModel, a: Seq<u8>, b: Seq<u8>)
    ensures
        run(m, s, a + b) == (match run(m, s, a) {
            Some((m2, s2)) => run(m2, s2, b),
            None => None::<(IngressModel, SystemModel)>,
        }),
    decreases a.len(),
{
    if a.len() == 0 {
        assert(a + b =~= b);
    } else {
        assert((a + b)[0] == a[0]);
        match step(m, s, a[0]) {
            None => {
                assert((a + b).len() > 0);
            },
            Some((m2, s2)) => {
                lemma_run_append(m2, s2, a.drop_first(), b);
                assert(a.drop_first() + b =~= (a + b).drop_first());
            },
        }
    }
}

/// Processing an empty byte sequence changes neither the engine nor the
/// device context.
pub proof fn law_empty_input_is_noop(m: IngressModel, s: SystemModel)
    ensures
        run(m, s, Seq::<u8>::empty()) == Some((m, s)),
{
}

/// A frame start discards whatever partial frame was in flight — the
/// buffer is emptied and untyped, the hex accumulator and section cursor
/// reset — and dispatches nothing, whatever state the engine was in.
pub proof fn law_frame_start_discards(m: IngressModel, s: SystemModel)
    ensures
        step(m, s, STX) == Some((reset_on_start(m), s)),
        reset_on_start(m).state == State::Init,
        reset_on_start(m).btype == MessageType::Unknown,
        reset_on_start(m).buf == Seq::<u8>::empty(),
        reset_on_start(m).hex_pending is None,
        reset_on_start(m).nsi_idx == 0,
{
}

/// While the engine waits with an untyped buffer, any bytes that hold no
/// frame start — noise, stray separators, stray frame ends — are discarded
/// without a dispatch and without touching the device context.
pub proof fn lemma_run_wait_noise(m: IngressModel, s: SystemModel, bytes: Seq<u8>)
    requires
        m.state == State::Wait,
        m.btype == MessageType::Unknown,
        forall|i: int| 0 <= i < bytes.len() ==> #[trigger] bytes[i] != STX,
    ensures
        run(m, s, bytes) == Some((m, s)),
    decreases bytes.len(),
{
    if bytes.len() == 0 {
    } else {
        let b = bytes[0];
        assert(step(m, s, b) == Some((m, s))) by {
            if b == ETX {
                assert(IngressModel { state: State::Wait, ..m } =~= m);
            } else if b == FIELD_SEPARATOR {
                assert(IngressModel { state: State::Wait, ..m } =~= m);
            }
        }
        assert(forall|i: int|
            0 <= i < bytes.drop_first().len() ==> #[trigger] bytes.drop_first()[i] != STX);
        lemma_run_wait_noise(m, s, bytes.drop_first());
    }
}

/// An unrecognized type byte after a frame start poisons the frame: no
/// byte up to and including the next frame end is dispatched, and the
/// device context is untouched.
pub proof fn law_unknown_type_no_dispatch(
    m: IngressModel,
    s: SystemModel,
    t: u8,
    body: Seq<u8>,
)
    requires
        !is_delimiter(t),
        classify_spec(t) == MessageType::Unknown,
        forall|i: int| 0 <= i < body.len() ==> #[trigger] body[i] != STX,
    ensures
        ({
            let frame = seq![STX, t] + body + seq![ETX];
            &&& run(m, s, frame) matches Some((m2, s2)) && s2 == s && m2.state == State::Wait
        }),
{
    let frame = seq![STX, t] + body + seq![ETX];
    let ma = reset_on_start(m);
    let mb = IngressModel { btype: MessageType::Unknown, state: State::Wait, ..ma };
    assert(frame[0] == STX);
    assert(step(m, s, STX) == Some((ma, s)));
    let rest1 = frame.drop_first();
    assert(rest1[0] == t);
    assert(step(ma, s, t) == Some((mb, s)));
    let rest2 = rest1.drop_first();
    assert(rest2 =~= body + seq![ETX]);
    assert(forall|i: int| 0 <= i < rest2.len() ==> #[trigger] rest2[i] != STX);
    lemma_run_unfold(m, s, frame);
    assert(run(m, s, frame) == run(ma, s, rest1));
    lemma_run_unfold(ma, s, rest1);
    assert(run(ma, s, rest1) == run(mb, s, rest2));
    lemma_run_wait_noise(mb, s, rest2);
    assert(run(m, s, frame) == Some((mb, s)));
}

/// In generic body capture, delimiter-free text that fits the buffer is
/// appended verbatim and nothing else changes.
pub proof fn lemma_run_payload(m: IngressModel, s: SystemModel, text: Seq<u8>)
    requires
        m.state == State::Payload,
        delimiter_free(text),
        m.buf.len() + text.len() <= BUFFER_CAPACITY,
    ensures
        run(m, s, text) == Some((IngressModel { buf: m.buf + text, ..m }, s)),
    decreases text.len(),
{
    if text.len() == 0 {
        assert(IngressModel { buf: m.buf + text, ..m } =~= m);
    } else {
        let b = text[0];
        assert(!is_delimiter(b));
        let m2 = IngressModel { buf: m.buf.push(b), ..m };
        assert(step(m, s, b) == Some((m2, s)));
        assert(delimiter_free(text.drop_first()));
        lemma_run_payload(m2, s, text.drop_first());
        assert(m2.buf + text.drop_first() =~= m.buf + text);
        assert(IngressModel { buf: m2.buf + text.drop_first(), ..m2 } =~= IngressModel {
            buf: m.buf + text,
            ..m
        });
    }
}

/// In a notification field, delimiter-free text that fits the buffer is
/// appended verbatim and the section cursor advances by its length.
pub proof fn lemma_run_note_text(m: IngressModel, s: SystemModel, text: Seq<u8>)
    requires
        m.state == State::NotificationSource || m.state == State::NotificationTitle
            || m.state == State::NotificationBody,
        delimiter_free(text),
        m.buf.len() + text.len() <= BUFFER_CAPACITY,
        m.nsi_idx <= m.buf.len(),
    ensures
        run(m, s, text) == Some(
            (
                IngressModel {
                    buf: m.buf + text,
                    nsi_idx: (m.nsi_idx + text.len()) as usize,
                    ..m
                },
                s,
            ),
        ),
    decreases text.len(),
{
    if text.len() == 0 {
        assert(IngressModel { buf: m.buf + text, nsi_idx: (m.nsi_idx + 0) as usize, ..m } =~= m);
    } else {
        let b = text[0];
        assert(!is_delimiter(b));
        let m2 = IngressModel {
            buf: m.buf.push(b),
            nsi_idx: (m.nsi_idx + 1) as usize,
            ..m
        };
        assert(step(m, s, b) == Some((m2, s)));
        assert(delimiter_free(text.drop_first()));
        lemma_run_note_text(m2, s, text.drop_first());
        assert(m2.buf + text.drop_first() =~= m.buf + text);
        assert(IngressModel {
            buf: m2.buf + text.drop_first(),
            nsi_idx: (m2.nsi_idx + text.drop_first().len()) as usize,
            ..m2
        } =~= IngressModel {
            buf: m.buf + text,
            nsi_idx: (m.nsi_idx + text.len()) as usize,
            ..m
        });
    }
}

/// A well-formed syscall frame — frame start, the syscall type byte, a
/// field separator, a delimiter-free body that fits the buffer, frame end —
/// is dispatched exactly once, as a syscall whose body is the frame body
/// verbatim; the staged load and the notification store are untouched, and
/// the clock is set exactly when the body is a well-formed time command.
pub proof fn law_syscall_frame_dispatches_once(
    m: IngressModel,
    s: SystemModel,
    body: Seq<u8>,
)
    requires
        delimiter_free(body),
        body.len() <= BUFFER_CAPACITY,
    ensures
        ({
            let frame = seq![STX, TYPE_SYSCALL, FIELD_SEPARATOR] + body + seq![ETX];
            &&& run(m, s, frame) matches Some((m2, s2)) && m2.state == State::Wait && s2
                == (SystemModel {
                clock: (match syscall_parse_spec(body) {
                    Some(Syscall::SetTime { hours, minutes, seconds }) => ClockTime {
                        hours,
                        minutes,
                        seconds,
                    },
                    None => s.clock,
                }),
                dispatches: s.dispatches.push(DispatchRecord::Syscall { body }),
                ..s
            })
        }),
{
    let frame = seq![STX, TYPE_SYSCALL, FIELD_SEPARATOR] + body + seq![ETX];
    let ma = reset_on_start(m);
    assert(frame[0] == STX);
    assert(step(m, s, STX) == Some((ma, s)));
    let rest1 = frame.drop_first();
    assert(rest1[0] == TYPE_SYSCALL);
    assert(classify_spec(TYPE_SYSCALL) == MessageType::Syscall);
    let mb = IngressModel { btype: MessageType::Syscall, state: State::Init, ..ma };
    assert(step(ma, s, TYPE_SYSCALL) == Some((mb, s)));
    let rest2 = rest1.drop_first();
    assert(rest2[0] == FIELD_SEPARATOR);
    let mc = IngressModel { state: State::Payload, ..mb };
    assert(step(mb, s, FIELD_SEPARATOR) == Some((mc, s)));
    let rest3 = rest2.drop_first();
    assert(rest3 =~= body + seq![ETX]);
    lemma_run_unfold(m, s, frame);
    assert(run(m, s, frame) == run(ma, s, rest1));
    lemma_run_unfold(ma, s, rest1);
    assert(run(ma, s, rest1) == run(mb, s, rest2));
    lemma_run_unfold(mb, s, rest2);
    assert(run(mb, s, rest2) == run(mc, s, rest3));
    lemma_run_append(mc, s, body, seq![ETX]);
    lemma_run_payload(mc, s, body);
    let md = IngressModel { buf: mc.buf + body, ..mc };
    assert(md.buf =~= body);
    let m_end = IngressModel { state: State::Wait, ..md };
    let s_end = dispatch_model(md, s);
    assert(run(md, s, seq![ETX]) == Some((m_end, s_end))) by {
        assert(seq![ETX][0] == ETX);
        assert(step(md, s, ETX) == Some((m_end, s_end)));
        assert(seq![ETX].drop_first() =~= Seq::<u8>::empty());
        lemma_run_unfold(md, s, seq![ETX]);
    }
    assert(run(mc, s, rest3) == Some((m_end, s_end)));
    assert(run(m, s, frame) == Some((m_end, s_end)));
    assert(s_end =~= SystemModel {
        clock: (match syscall_parse_spec(body) {
            Some(Syscall::SetTime { hours, minutes, seconds }) => ClockTime {
                hours,
                minutes,
                seconds,
            },
            None => s.clock,
        }),
        dispatches: s.dispatches.push(DispatchRecord::Syscall { body }),
        ..s
    });
}

/// Whether a byte sequence consists of hex digits only.
pub open spec fn all_hex_digits(s: Seq<u8>) -> bool {
    forall|i: int| 0 <= i < s.len() ==> is_hex_digit(#[trigger] s[i])
}

/// In a hex field of an application load, an even run of hex digits that
/// fits the staged area is decoded pairwise, high nibble first, into the
/// checksum or the firmware bytes; the engine's own state is unchanged.
pub proof fn lemma_run_hex_field(m: IngressModel, s: SystemModel, text: Seq<u8>)
    requires
        m.state == State::ApplicationChecksum || m.state == State::ApplicationStore,
        m.hex_pending is None,
        all_hex_digits(text),
        text.len() % 2 == 0,
        m.state == State::ApplicationChecksum ==> s.app.checksum.len() + text.len() / 2
            <= CHECKSUM_SIZE,
        m.state == State::ApplicationStore ==> s.app.ram.len() + text.len() / 2 <= RAM_CAPACITY,
    ensures
        run(m, s, text) == Some(
            (
                m,
                SystemModel {
                    app: (if m.state == State::ApplicationChecksum {
                        AppModel { checksum: s.app.checksum + hex_decode_pairs(text), ..s.app }
                    } else {
                        AppModel { ram: s.app.ram + hex_decode_pairs(text), ..s.app }
                    }),
                    ..s
                },
            ),
        ),
    decreases text.len(),
{
    if text.len() == 0 {
        assert(s.app.checksum + hex_decode_pairs(text) =~= s.app.checksum);
        assert(s.app.ram + hex_decode_pairs(text) =~= s.app.ram);
        assert(SystemModel {
            app: (if m.state == State::ApplicationChecksum {
                AppModel { checksum: s.app.checksum + hex_decode_pairs(text), ..s.app }
            } else {
                AppModel { ram: s.app.ram + hex_decode_pairs(text), ..s.app }
            }),
            ..s
        } =~= s);
    } else {
        let b0 = text[0];
        let b1 = text[1];
        assert(is_hex_digit(b0) && is_hex_digit(b1));
        assert(!is_delimiter(b0) && !is_delimiter(b1));
        let v = (hex_pair_value(b0, b1)) as u8;
        let m1 = IngressModel { hex_pending: Some(b0), ..m };
        assert(step(m, s, b0) == Some((m1, s)));
        let s1 = SystemModel {
            app: (if m.state == State::ApplicationChecksum {
                AppModel { checksum: s.app.checksum.push(v), ..s.app }
            } else {
                AppModel { ram: s.app.ram.push(v), ..s.app }
            }),
            ..s
        };
        assert(IngressModel { hex_pending: None::<u8>, ..m1 } =~= m);
        assert(step(m1, s, b1) == Some((m, s1)));
        let rest = text.drop_first();
        let rest2 = text.skip(2);
        assert(rest.drop_first() =~= rest2);
        assert(rest[0] == b1);
        lemma_run_unfold(m, s, text);
        assert(run(m, s, text) == run(m1, s, rest));
        lemma_run_unfold(m1, s, rest);
        assert(run(m1, s, rest) == run(m, s1, rest2));
        assert(all_hex_digits(rest2));
        lemma_run_hex_field(m, s1, rest2);
        assert(s.app.checksum.push(v) + hex_decode_pairs(rest2) =~= s.app.checksum
            + hex_decode_pairs(text));
        assert(s.app.ram.push(v) + hex_decode_pairs(rest2) =~= s.app.ram + hex_decode_pairs(
            text,
        ));
        assert(SystemModel {
            app: (if m.state == State::ApplicationChecksum {
                AppModel { checksum: s1.app.checksum + hex_decode_pairs(rest2), ..s1.app }
            } else {
                AppModel { ram: s1.app.ram + hex_decode_pairs(rest2), ..s1.app }
            }),
            ..s1
        } =~= SystemModel {
            app: (if m.state == State::ApplicationChecksum {
                AppModel { checksum: s.app.checksum + hex_decode_pairs(text), ..s.app }
            } else {
                AppModel { ram: s.app.ram + hex_decode_pairs(text), ..s.app }
            }),
            ..s
        });
    }
}

/// A hex pair with a character that is no hex digit abandons the frame:
/// the engine falls back to waiting for a frame start, the accumulator is
/// reset, and a following frame end dispatches nothing — the device
/// context is untouched.
pub proof fn law_invalid_hex_abandons_frame(m: IngressModel, s: SystemModel, b: u8)
    requires
        m.state == State::ApplicationChecksum || m.state == State::ApplicationStore,
        m.hex_pending matches Some(h) && !(is_hex_digit(h) && is_hex_digit(b)),
        !is_delimiter(b),
    ensures
        run(m, s, seq![b, ETX]) == Some(
            (IngressModel { state: State::Wait, hex_pending: None::<u8>, ..m }, s),
        ),
{
    let m1 = IngressModel { state: State::Wait, hex_pending: None::<u8>, ..m };
    assert(step(m, s, b) == Some((m1, s)));
    assert(step(m1, s, ETX) == Some((m1, s))) by {
        assert(IngressModel { state: State::Wait, ..m1 } =~= m1);
    }
    let bytes = seq![b, ETX];
    assert(bytes[0] == b);
    lemma_run_unfold(m, s, bytes);
    let rest = bytes.drop_first();
    assert(rest.len() == 1 && rest[0] == ETX);
    lemma_run_unfold(m1, s, rest);
    assert(rest.drop_first() =~= Seq::<u8>::empty());
}

/// A well-formed application frame — frame start, the application type
/// byte, a separator, four hex digits of checksum, a separator, an even
/// run of hex digits of firmware that fits the staging memory, frame end —
/// is dispatched exactly once: any prior staged load is abandoned, the
/// checksum and firmware bytes are decoded pairwise high nibble first, and
/// verification succeeds exactly when at least one firmware byte arrived.
/// The notification store and the clock are untouched.
#[verifier::rlimit(100)]
pub proof fn law_application_frame_dispatches_once(
    m: IngressModel,
    s: SystemModel,
    csum: Seq<u8>,
    fw: Seq<u8>,
)
    requires
        all_hex_digits(csum),
        csum.len() == 2 * CHECKSUM_SIZE,
        all_hex_digits(fw),
        fw.len() % 2 == 0,
        fw.len() <= 2 * RAM_CAPACITY,
    ensures
        ({
            let frame = seq![STX, TYPE_APPLICATION, FIELD_SEPARATOR] + csum + seq![
                FIELD_SEPARATOR,
            ] + fw + seq![ETX];
            &&& run(m, s, frame) matches Some((m2, s2)) && m2.state == State::Wait && s2
                == (SystemModel {
                app: AppModel {
                    checksum: hex_decode_pairs(csum),
                    ram: hex_decode_pairs(fw),
                    verified: fw.len() > 0,
                },
                dispatches: s.dispatches.push(DispatchRecord::Application),
                ..s
            })
        }),
{
    let frame = seq![STX, TYPE_APPLICATION, FIELD_SEPARATOR] + csum + seq![FIELD_SEPARATOR] + fw
        + seq![ETX];
    let ma = reset_on_start(m);
    assert(frame[0] == STX);
    assert(step(m, s, STX) == Some((ma, s)));
    let rest1 = frame.drop_first();
    assert(rest1[0] == TYPE_APPLICATION);
    assert(classify_spec(TYPE_APPLICATION) == MessageType::Application);
    let mb = IngressModel { btype: MessageType::Application, state: State::Init, ..ma };
    assert(step(ma, s, TYPE_APPLICATION) == Some((mb, s)));
    let rest2 = rest1.drop_first();
    assert(rest2[0] == FIELD_SEPARATOR);
    let mc = IngressModel { state: State::ApplicationChecksum, ..mb };
    let s_killed = SystemModel {
        app: AppModel { checksum: Seq::empty(), ram: Seq::empty(), verified: false },
        ..s
    };
    assert(step(mb, s, FIELD_SEPARATOR) == Some((mc, s_killed)));
    let rest3 = rest2.drop_first();
    let rest4 = seq![FIELD_SEPARATOR] + fw + seq![ETX];
    assert(rest3 =~= csum + rest4);
    lemma_run_unfold(m, s, frame);
    assert(run(m, s, frame) == run(ma, s, rest1));
    lemma_run_unfold(ma, s, rest1);
    assert(run(ma, s, rest1) == run(mb, s, rest2));
    lemma_run_unfold(mb, s, rest2);
    assert(run(mb, s, rest2) == run(mc, s_killed, rest3));
    lemma_run_append(mc, s_killed, csum, rest4);
    lemma_run_hex_field(mc, s_killed, csum);
    let s_cs = SystemModel {
        app: AppModel {
            checksum: Seq::<u8>::empty() + hex_decode_pairs(csum),
            ..s_killed.app
        },
        ..s_killed
    };
    assert(run(mc, s_killed, rest3) == run(mc, s_cs, rest4));
    assert(rest4[0] == FIELD_SEPARATOR);
    let md = IngressModel { state: State::ApplicationStore, ..mc };
    assert(step(mc, s_cs, FIELD_SEPARATOR) == Some((md, s_cs)));
    let rest5 = rest4.drop_first();
    assert(rest5 =~= fw + seq![ETX]);
    lemma_run_unfold(mc, s_cs, rest4);
    assert(run(mc, s_cs, rest4) == run(md, s_cs, rest5));
    lemma_run_append(md, s_cs, fw, seq![ETX]);
    lemma_hex_decode_pairs_len(csum);
    lemma_hex_decode_pairs_len(fw);
    lemma_run_hex_field(md, s_cs, fw);
    let s_fw = SystemModel {
        app: AppModel { ram: Seq::<u8>::empty() + hex_decode_pairs(fw), ..s_cs.app },
        ..s_cs
    };
    assert(run(md, s_cs, rest5) == run(md, s_fw, seq![ETX]));
    let m_end = IngressModel { state: State::Wait, ..md };
    let s_end = dispatch_model(md, s_fw);
    assert(run(md, s_fw, seq![ETX]) == Some((m_end, s_end))) by {
        assert(seq![ETX][0] == ETX);
        assert(step(md, s_fw, ETX) == Some((m_end, s_end)));
        assert(seq![ETX].drop_first() =~= Seq::<u8>::empty());
        lemma_run_unfold(md, s_fw, seq![ETX]);
    }
    assert(run(m, s, frame) == Some((m_end, s_end)));
    assert(Seq::<u8>::empty() + hex_decode_pairs(csum) =~= hex_decode_pairs(csum));
    assert(Seq::<u8>::empty() + hex_decode_pairs(fw) =~= hex_decode_pairs(fw));
    assert(s_end =~= SystemModel {
        app: AppModel {
            checksum: hex_decode_pairs(csum),
            ram: hex_decode_pairs(fw),
            verified: fw.len() > 0,
        },
        dispatches: s.dispatches.push(DispatchRecord::Application),
        ..s
    });
}

/// A run of hex digits decodes to half as many bytes.
pub proof fn lemma_hex_decode_pairs_len(s: Seq<u8>)
    ensures
        hex_decode_pairs(s).len() == s.len() / 2,
    decreases s.len(),
{
    if s.len() >= 2 {
        lemma_hex_decode_pairs_len(s.skip(2));
    }
}

/// A well-formed notification frame — frame start, the notification type
/// byte, then source, title and body fields separated by field separators,
/// frame end — is dispatched exactly once: the stored body is the three
/// fields concatenated verbatim, and the section indices mark the
/// cumulative field boundaries.  The store takes it unless it is full;
/// the staged load and the clock are untouched.
#[verifier::rlimit(100)]
pub proof fn law_notification_frame_dispatches_once(
    m: IngressModel,
    s: SystemModel,
    source: Seq<u8>,
    title: Seq<u8>,
    body: Seq<u8>,
)
    requires
        delimiter_free(source),
        delimiter_free(title),
        delimiter_free(body),
        source.len() + title.len() + body.len() <= BUFFER_CAPACITY,
    ensures
        ({
            let frame = seq![STX, TYPE_NOTIFICATION, FIELD_SEPARATOR] + source + seq![
                FIELD_SEPARATOR,
            ] + title + seq![FIELD_SEPARATOR] + body + seq![ETX];
            let stored = source + title + body;
            let sections = SectionIndices {
                source_end: source.len() as usize,
                title_end: (source.len() + title.len()) as usize,
                body_end: (source.len() + title.len() + body.len()) as usize,
            };
            &&& run(m, s, frame) matches Some((m2, s2)) && m2.state == State::Wait && s2
                == (SystemModel {
                notes: (if s.notes.len() < NOTIFICATION_CAPACITY {
                    s.notes.push(NoteModel { data: stored, sections })
                } else {
                    s.notes
                }),
                dispatches: s.dispatches.push(
                    DispatchRecord::Notification { body: stored, sections },
                ),
                ..s
            })
        }),
{
    let frame = seq![STX, TYPE_NOTIFICATION, FIELD_SEPARATOR] + source + seq![FIELD_SEPARATOR]
        + title + seq![FIELD_SEPARATOR] + body + seq![ETX];
    let stored = source + title + body;
    let sections = SectionIndices {
        source_end: source.len() as usize,
        title_end: (source.len() + title.len()) as usize,
        body_end: (source.len() + title.len() + body.len()) as usize,
    };
    let ma = reset_on_start(m);
    assert(frame[0] == STX);
    assert(step(m, s, STX) == Some((ma, s)));
    let rest1 = frame.drop_first();
    assert(rest1[0] == TYPE_NOTIFICATION);
    assert(classify_spec(TYPE_NOTIFICATION) == MessageType::Notification);
    let mb = IngressModel { btype: MessageType::Notification, state: State::Init, ..ma };
    assert(step(ma, s, TYPE_NOTIFICATION) == Some((mb, s)));
    let rest2 = rest1.drop_first();
    assert(rest2[0] == FIELD_SEPARATOR);
    let mc = IngressModel { state: State::NotificationSource, ..mb };
    assert(step(mb, s, FIELD_SEPARATOR) == Some((mc, s)));
    let rest3 = rest2.drop_first();
    let rest4 = seq![FIELD_SEPARATOR] + title + seq![FIELD_SEPARATOR] + body + seq![ETX];
    assert(rest3 =~= source + rest4);
    lemma_run_unfold(m, s, frame);
    assert(run(m, s, frame) == run(ma, s, rest1));
    lemma_run_unfold(ma, s, rest1);
    assert(run(ma, s, rest1) == run(mb, s, rest2));
    lemma_run_unfold(mb, s, rest2);
    assert(run(mb, s, rest2) == run(mc, s, rest3));
    lemma_run_append(mc, s, source, rest4);
    lemma_run_note_text(mc, s, source);
    let md = IngressModel {
        buf: mc.buf + source,
        nsi_idx: (mc.nsi_idx + source.len()) as usize,
        ..mc
    };
    assert(md.buf =~= source);
    assert(md.nsi_idx == source.len());
    assert(run(mc, s, rest3) == run(md, s, rest4));
    assert(rest4[0] == FIELD_SEPARATOR);
    let me = IngressModel { nsi0: md.nsi_idx, state: State::NotificationTitle, ..md };
    assert(step(md, s, FIELD_SEPARATOR) == Some((me, s)));
    let rest5 = rest4.drop_first();
    let rest6 = seq![FIELD_SEPARATOR] + body + seq![ETX];
    assert(rest5 =~= title + rest6);
    lemma_run_unfold(md, s, rest4);
    assert(run(md, s, rest4) == run(me, s, rest5));
    lemma_run_append(me, s, title, rest6);
    lemma_run_note_text(me, s, title);
    let mf = IngressModel {
        buf: me.buf + title,
        nsi_idx: (me.nsi_idx + title.len()) as usize,
        ..me
    };
    assert(mf.buf =~= source + title);
    assert(mf.nsi_idx == source.len() + title.len());
    assert(run(me, s, rest5) == run(mf, s, rest6));
    assert(rest6[0] == FIELD_SEPARATOR);
    let mg = IngressModel { nsi1: mf.nsi_idx, state: State::NotificationBody, ..mf };
    assert(step(mf, s, FIELD_SEPARATOR) == Some((mg, s)));
    let rest7 = rest6.drop_first();
    assert(rest7 =~= body + seq![ETX]);
    lemma_run_unfold(mf, s, rest6);
    assert(run(mf, s, rest6) == run(mg, s, rest7));
    lemma_run_append(mg, s, body, seq![ETX]);
    lemma_run_note_text(mg, s, body);
    let mh = IngressModel {
        buf: mg.buf + body,
        nsi_idx: (mg.nsi_idx + body.len()) as usize,
        ..mg
    };
    assert(mh.buf =~= stored);
    assert(mh.nsi_idx == sections.body_end);
    assert(mh.nsi0 == sections.source_end);
    assert(mh.nsi1 == sections.title_end);
    assert(run(mg, s, rest7) == run(mh, s, seq![ETX]));
    let m_end = IngressModel { state: State::Wait, ..mh };
    let s_end = dispatch_model(mh, s);
    assert(run(mh, s, seq![ETX]) == Some((m_end, s_end))) by {
        assert(seq![ETX][0] == ETX);
        assert(step(mh, s, ETX) == Some((m_end, s_end)));
        assert(seq![ETX].drop_first() =~= Seq::<u8>::empty());
        lemma_run_unfold(mh, s, seq![ETX]);
    }
    assert(run(m, s, frame) == Some((m_end, s_end)));
    assert(s_end =~= SystemModel {
        notes: (if s.notes.len() < NOTIFICATION_CAPACITY {
            s.notes.push(NoteModel { data: stored, sections })
        } else {
            s.notes
        }),
        dispatches: s.dispatches.push(DispatchRecord::Notification { body: stored, sections }),
        ..s
    });
}

} // verus!

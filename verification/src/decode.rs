//! The event record decoder: turns a flat kernel-supplied byte buffer,
//! holding zero or more variable-length records, into typed [`Event`]s.
//!
//! Each record begins with a fixed 24-byte header, little-endian:
//! a 32-bit total record length, an 8-bit structural version, a reserved
//! byte, a 16-bit metadata length, a 64-bit event mask, a 32-bit embedded
//! descriptor and a 32-bit process id. A record longer than the header
//! carries extra payload this decoder skips over.
//!
//! Every length field is validated against the remaining buffer before any
//! payload is trusted; a violation fails the whole read, since a byte-offset
//! desynchronization makes every later record unsafe. A decode failure is
//! scoped to the single call: decoding is a pure function of one buffer,
//! a failed call leaves no partial offset behind, and a later read starts
//! from a fresh kernel buffer.

use vstd::prelude::*;
use crate::errors::FanotifyError;
use crate::event::{Event, FANOTIFY_METADATA_VERSION, FAN_NOFD};

verus! {

/// The size in bytes of a record's fixed header, the least length any
/// record may declare.
pub const EVENT_METADATA_LEN: usize = 24;

/// The value of four little-endian bytes.
pub open spec fn le_u32_of(b0: u8, b1: u8, b2: u8, b3: u8) -> u32 {
    (b0 as int + b1 as int * 0x100 + b2 as int * 0x10000 + b3 as int * 0x1000000) as u32
}

/// The value of eight little-endian bytes.
pub open spec fn le_u64_of(b0: u8, b1: u8, b2: u8, b3: u8, b4: u8, b5: u8, b6: u8, b7: u8) -> u64 {
    (b0 as int + b1 as int * 0x100 + b2 as int * 0x10000 + b3 as int * 0x1000000
        + b4 as int * 0x1_0000_0000 + b5 as int * 0x100_0000_0000
        + b6 as int * 0x1_0000_0000_0000 + b7 as int * 0x100_0000_0000_0000) as u64
}

/// The signed 32-bit value carried by a wire word, two's complement.
pub open spec fn i32_from_wire(u: u32) -> i32 {
    if u < 0x8000_0000 {
        u as i32
    } else {
        (u as int - 0x1_0000_0000) as i32
    }
}

/// The declared total length of the record at the head of `s`.
pub open spec fn record_len(s: Seq<u8>) -> u32 {
    le_u32_of(s[0], s[1], s[2], s[3])
}

/// The structural version tag of the record at the head of `s`.
pub open spec fn record_version(s: Seq<u8>) -> u8 {
    s[4]
}

/// The event mask of the record at the head of `s`.
pub open spec fn record_mask(s: Seq<u8>) -> u64 {
    le_u64_of(s[8], s[9], s[10], s[11], s[12], s[13], s[14], s[15])
}

/// The embedded descriptor field of the record at the head of `s`.
pub open spec fn record_fd(s: Seq<u8>) -> i32 {
    i32_from_wire(le_u32_of(s[16], s[17], s[18], s[19]))
}

/// The process id field of the record at the head of `s`.
pub open spec fn record_pid(s: Seq<u8>) -> i32 {
    i32_from_wire(le_u32_of(s[20], s[21], s[22], s[23]))
}

/// The event decoded from the record at the head of `s`: the descriptor
/// sentinel becomes an absent descriptor.
pub open spec fn record_event(s: Seq<u8>) -> Event {
    Event {
        metadata_version: record_version(s),
        mask: record_mask(s),
        pid: record_pid(s),
        fd: if record_fd(s) == FAN_NOFD {
            None
        } else {
            Some(record_fd(s))
        },
    }
}

/// What decoding a whole buffer yields: the events of its records in
/// delivery order, or the first failure.
///
/// A partial trailing record, a declared length shorter than the header,
/// and a declared length overrunning the remaining buffer are each a
/// corrupt stream; a version tag other than the supported one fails the
/// read without interpreting the rest of that record.
pub open spec fn parse_events(s: Seq<u8>) -> Result<Seq<Event>, FanotifyError>
    decreases s.len(),
{
    if s.len() == 0 {
        Ok(Seq::empty())
    } else if s.len() < EVENT_METADATA_LEN {
        Err(FanotifyError::CorruptStream)
    } else if record_len(s) < EVENT_METADATA_LEN || record_len(s) > s.len() {
        Err(FanotifyError::CorruptStream)
    } else if record_version(s) != FANOTIFY_METADATA_VERSION {
        Err(FanotifyError::UnsupportedVersion)
    } else {
        match parse_events(s.skip(record_len(s) as int)) {
            Ok(rest) => Ok(seq![record_event(s)] + rest),
            Err(e) => Err(e),
        }
    }
}

/// Reads the little-endian 32-bit word at `i`.
fn read_le_u32(buf: &[u8], i: usize) -> (r: u32)
    requires
        i + 4 <= buf@.len(),
    ensures
        r == le_u32_of(buf@[i as int], buf@[i as int + 1], buf@[i as int + 2], buf@[i as int + 3]),
{
    (buf[i] as u32) + (buf[i + 1] as u32) * 0x100 + (buf[i + 2] as u32) * 0x10000
        + (buf[i + 3] as u32) * 0x1000000
}

/// Reads the little-endian 64-bit word at `i`.
fn read_le_u64(buf: &[u8], i: usize) -> (r: u64)
    requires
        i + 8 <= buf@.len(),
    ensures
        r == le_u64_of(
            buf@[i as int], buf@[i as int + 1], buf@[i as int + 2], buf@[i as int + 3],
            buf@[i as int + 4], buf@[i as int + 5], buf@[i as int + 6], buf@[i as int + 7],
        ),
{
    (buf[i] as u64) + (buf[i + 1] as u64) * 0x100 + (buf[i + 2] as u64) * 0x10000
        + (buf[i + 3] as u64) * 0x1000000 + (buf[i + 4] as u64) * 0x1_0000_0000
        + (buf[i + 5] as u64) * 0x100_0000_0000 + (buf[i + 6] as u64) * 0x1_0000_0000_0000
        + (buf[i + 7] as u64) * 0x100_0000_0000_0000
}

/// Turns a wire word into the signed value it carries, two's complement.
fn wire_i32(u: u32) -> (r: i32)
    ensures
        r == i32_from_wire(u),
{
    if u < 0x8000_0000 {
        u as i32
    } else {
        let d: i32 = (u - 0x8000_0000) as i32;
        d + (-0x7FFF_FFFF - 1)
    }
}

/// Decodes a kernel-supplied buffer into its events, in delivery order.
///
/// Returns exactly what [`parse_events`] says of the buffer's bytes. A
/// structural failure abandons the whole batch: no event of a buffer that
/// fails is handed out. The failure is scoped to this one buffer; it says
/// nothing about buffers a later read may fetch.
pub fn decode_events(buf: &[u8]) -> (r: Result<Vec<Event>, FanotifyError>)
    ensures
        r is Ok <==> parse_events(buf@) is Ok,
        r is Ok ==> r->Ok_0@ == parse_events(buf@)->Ok_0,
        r is Err ==> r->Err_0 == parse_events(buf@)->Err_0,
        buf@.len() > 0 && r is Ok ==> r->Ok_0@.len() >= 1,
{
    let ghost input = buf@;
    let mut events: Vec<Event> = Vec::new();
    let mut offset: usize = 0;
    proof {
        assert(input.skip(0) =~= input);
    }
    while offset < buf.len()
        invariant
            buf@ == input,
            offset <= buf@.len(),
            (parse_events(input) is Ok <==> parse_events(input.skip(offset as int)) is Ok),
            parse_events(input.skip(offset as int)) is Ok ==> parse_events(input)->Ok_0
                == events@ + parse_events(input.skip(offset as int))->Ok_0,
            parse_events(input.skip(offset as int)) is Err ==> parse_events(input)->Err_0
                == parse_events(input.skip(offset as int))->Err_0,
            parse_events(input) is Ok && input.len() > 0 ==> parse_events(input)->Ok_0.len() >= 1,
        decreases buf@.len() - offset,
    {
        let ghost tail = input.skip(offset as int);
        proof {
            assert(tail.len() == input.len() - offset);
        }
        let remaining = buf.len() - offset;
        if remaining < EVENT_METADATA_LEN {
            proof {
                assert(parse_events(tail) == Err::<Seq<Event>, FanotifyError>(
                    FanotifyError::CorruptStream,
                ));
            }
            return Err(FanotifyError::CorruptStream);
        }
        let len_u32 = read_le_u32(buf, offset);
        proof {
            assert(tail[0] == input[offset as int]);
            assert(tail[1] == input[offset as int + 1]);
            assert(tail[2] == input[offset as int + 2]);
            assert(tail[3] == input[offset as int + 3]);
            assert(record_len(tail) == len_u32);
        }
        let len = len_u32 as usize;
        if len < EVENT_METADATA_LEN || len > remaining {
            proof {
                assert(parse_events(tail) == Err::<Seq<Event>, FanotifyError>(
                    FanotifyError::CorruptStream,
                ));
            }
            return Err(FanotifyError::CorruptStream);
        }
        let vers = buf[offset + 4];
        proof {
            assert(tail[4] == input[offset as int + 4]);
            assert(record_version(tail) == vers);
        }
        if vers != FANOTIFY_METADATA_VERSION {
            proof {
                assert(parse_events(tail) == Err::<Seq<Event>, FanotifyError>(
                    FanotifyError::UnsupportedVersion,
                ));
            }
            return Err(FanotifyError::UnsupportedVersion);
        }
        let mask = read_le_u64(buf, offset + 8);
        let fd_raw = wire_i32(read_le_u32(buf, offset + 16));
        let pid = wire_i32(read_le_u32(buf, offset + 20));
        let ev = Event {
            metadata_version: vers,
            mask,
            pid,
            fd: if fd_raw == FAN_NOFD {
                None
            } else {
                Some(fd_raw)
            },
        };
        proof {
            assert(tail[8] == input[offset as int + 8]);
            assert(tail[9] == input[offset as int + 9]);
            assert(tail[10] == input[offset as int + 10]);
            assert(tail[11] == input[offset as int + 11]);
            assert(tail[12] == input[offset as int + 12]);
            assert(tail[13] == input[offset as int + 13]);
            assert(tail[14] == input[offset as int + 14]);
            assert(tail[15] == input[offset as int + 15]);
            assert(tail[16] == input[offset as int + 16]);
            assert(tail[17] == input[offset as int + 17]);
            assert(tail[18] == input[offset as int + 18]);
            assert(tail[19] == input[offset as int + 19]);
            assert(tail[20] == input[offset as int + 20]);
            assert(tail[21] == input[offset as int + 21]);
            assert(tail[22] == input[offset as int + 22]);
            assert(tail[23] == input[offset as int + 23]);
            assert(record_mask(tail) == mask);
            assert(record_fd(tail) == fd_raw);
            assert(record_pid(tail) == pid);
            assert(ev == record_event(tail));
        }
        let ghost events_before = events@;
        events.push(ev);
        proof {
            let new_tail = input.skip(offset as int + len as int);
            assert(tail.skip(len as int) =~= new_tail);
            assert(parse_events(tail) == match parse_events(new_tail) {
                Ok(rest) => Ok::<Seq<Event>, FanotifyError>(seq![record_event(tail)] + rest),
                Err(e) => Err::<Seq<Event>, FanotifyError>(e),
            });
            if parse_events(new_tail) is Ok {
                assert(events@ + parse_events(new_tail)->Ok_0
                    =~= events_before + (seq![ev] + parse_events(new_tail)->Ok_0));
            }
        }
        offset = offset + len;
    }
    proof {
        assert(input.skip(offset as int).len() == 0);
        assert(parse_events(input.skip(offset as int)) == Ok::<Seq<Event>, FanotifyError>(
            Seq::empty(),
        ));
        assert(events@ + Seq::<Event>::empty() =~= events@);
    }
    Ok(events)
}

/// Law: a successful decode of a non-empty buffer yields at least one
/// event; an empty batch can only come from an empty buffer.
pub proof fn lemma_nonempty_buffer_yields_event(s: Seq<u8>)
    requires
        s.len() > 0,
        parse_events(s) is Ok,
    ensures
        parse_events(s)->Ok_0.len() >= 1,
{
    assert(parse_events(s)->Ok_0.len() >= 1);
}

/// Law: every event of a successfully decoded batch carries the supported
/// metadata version; a record of any other version fails the whole read
/// instead of being handed out.
pub proof fn lemma_decoded_versions_supported(s: Seq<u8>)
    requires
        parse_events(s) is Ok,
    ensures
        forall|i: int|
            0 <= i < parse_events(s)->Ok_0.len() ==> (#[trigger] parse_events(s)->Ok_0[i])
                .metadata_version == FANOTIFY_METADATA_VERSION,
    decreases s.len(),
{
    if s.len() == 0 {
    } else {
        let l = record_len(s) as int;
        lemma_decoded_versions_supported(s.skip(l));
        let rest = parse_events(s.skip(l))->Ok_0;
        assert(parse_events(s)->Ok_0 == seq![record_event(s)] + rest);
        assert(record_event(s).metadata_version == FANOTIFY_METADATA_VERSION);
        assert forall|i: int| 0 <= i < parse_events(s)->Ok_0.len() implies (
        #[trigger] parse_events(s)->Ok_0[i]).metadata_version == FANOTIFY_METADATA_VERSION by {
            if i == 0 {
            } else {
                assert(parse_events(s)->Ok_0[i] == rest[i - 1]);
            }
        }
    }
}

/// Law: decoding distributes over concatenation. After a run of
/// well-formed records, the rest of the buffer decodes exactly as it would
/// alone: its events are appended in order, and any failure in it fails
/// the whole read.
pub proof fn lemma_parse_append(head: Seq<u8>, tail: Seq<u8>)
    requires
        parse_events(head) is Ok,
    ensures
        parse_events(head + tail) == match parse_events(tail) {
            Ok(rest) => Ok::<Seq<Event>, FanotifyError>(parse_events(head)->Ok_0 + rest),
            Err(e) => Err::<Seq<Event>, FanotifyError>(e),
        },
    decreases head.len(),
{
    if head.len() == 0 {
        assert(head + tail =~= tail);
        assert(parse_events(head)->Ok_0 =~= Seq::<Event>::empty());
        if parse_events(tail) is Ok {
            assert(parse_events(head)->Ok_0 + parse_events(tail)->Ok_0 =~= parse_events(
                tail,
            )->Ok_0);
        }
    } else {
        let whole = head + tail;
        let l = record_len(head) as int;
        assert(whole[0] == head[0]);
        assert(whole[1] == head[1]);
        assert(whole[2] == head[2]);
        assert(whole[3] == head[3]);
        assert(whole[4] == head[4]);
        assert(record_len(whole) == record_len(head));
        assert(record_version(whole) == record_version(head));
        assert(whole.skip(l) =~= head.skip(l) + tail);
        lemma_parse_append(head.skip(l), tail);
        assert(whole[8] == head[8]);
        assert(whole[9] == head[9]);
        assert(whole[10] == head[10]);
        assert(whole[11] == head[11]);
        assert(whole[12] == head[12]);
        assert(whole[13] == head[13]);
        assert(whole[14] == head[14]);
        assert(whole[15] == head[15]);
        assert(whole[16] == head[16]);
        assert(whole[17] == head[17]);
        assert(whole[18] == head[18]);
        assert(whole[19] == head[19]);
        assert(whole[20] == head[20]);
        assert(whole[21] == head[21]);
        assert(whole[22] == head[22]);
        assert(whole[23] == head[23]);
        assert(record_event(whole) == record_event(head));
        match parse_events(tail) {
            Ok(rest) => {
                assert(seq![record_event(head)] + (parse_events(head.skip(l))->Ok_0 + rest)
                    =~= (seq![record_event(head)] + parse_events(head.skip(l))->Ok_0) + rest);
            },
            Err(_) => {},
        }
    }
}

/// Law: a record whose declared length overruns the remaining buffer — or
/// undershoots the header size — fails the entire read with a corrupt
/// stream, wherever the record stands after a run of well-formed ones.
pub proof fn lemma_bad_length_corrupts_read(head: Seq<u8>, tail: Seq<u8>)
    requires
        parse_events(head) is Ok,
        tail.len() > 0,
        tail.len() < EVENT_METADATA_LEN || record_len(tail) < EVENT_METADATA_LEN || record_len(
            tail,
        ) > tail.len(),
    ensures
        parse_events(head + tail) == Err::<Seq<Event>, FanotifyError>(FanotifyError::CorruptStream),
{
    lemma_parse_append(head, tail);
    assert(parse_events(tail) == Err::<Seq<Event>, FanotifyError>(FanotifyError::CorruptStream));
}

} // verus!

use vstd::prelude::*;
use vstd::utf8::{decode_utf8, valid_utf8};

use crate::codec::{envelope, lemma_envelope_round_trip, payload_of};
use crate::error::{HostError, ServiceError};
use crate::text::utf8_text;

verus! {

/// The state one run owns: the input it was given, replaced by the output
/// the guest sets; and the first failure of a capability call, if any.
#[derive(Debug, Clone)]
pub struct HostState {
    pub data: Vec<u8>,
    pub failure: Option<HostError>,
}

impl HostState {
    /// The state a run starts from.
    pub fn new(input: Vec<u8>) -> (r: HostState)
        ensures
            r.data@ == input@,
            r.failure is None,
    {
        HostState { data: input, failure: None }
    }

    /// Records a capability failure; the first one recorded is kept.
    pub fn record_failure(&mut self, e: HostError)
        ensures
            final(self).data == old(self).data,
            final(self).failure == (if old(self).failure is Some {
                old(self).failure
            } else {
                Some(e)
            }),
    {
        if self.failure.is_none() {
            self.failure = Some(e);
        }
    }
}

/// The guest region at `ptr` of `len` bytes lies inside a memory of `mem_len` bytes.
pub open spec fn region_ok(mem_len: nat, ptr: int, len: int) -> bool {
    0 <= ptr && 0 <= len && ptr + len <= mem_len
}

/// Memory `mem` with `bytes` written at `ptr`.
pub open spec fn written(mem: Seq<u8>, ptr: int, bytes: Seq<u8>) -> Seq<u8> {
    mem.subrange(0, ptr) + bytes + mem.subrange(ptr + bytes.len(), mem.len() as int)
}

/// Copies the guest region at `ptr` of `len` bytes out of its memory.
pub fn read_region(mem: &[u8], ptr: i32, len: i32) -> (r: Result<Vec<u8>, HostError>)
    ensures
        match r {
            Ok(v) => region_ok(mem@.len(), ptr as int, len as int) && v@ == mem@.subrange(
                ptr as int,
                ptr + len,
            ),
            Err(e) => !region_ok(mem@.len(), ptr as int, len as int) && e == HostError::OutOfBounds,
        },
{
    if ptr < 0 || len < 0 || len as usize > mem.len() || ptr as usize > mem.len() - len as usize {
        return Err(HostError::OutOfBounds);
    }
    let start = ptr as usize;
    let n = len as usize;
    let mut out: Vec<u8> = Vec::new();
    let mut i: usize = 0;
    while i < n
        invariant
            i <= n,
            start + n <= mem@.len(),
            start == ptr,
            n == len,
            out@ == mem@.subrange(start as int, start + i),
        decreases n - i,
    {
        out.push(mem[start + i]);
        i = i + 1;
        assert(mem@.subrange(start as int, start + i) == mem@.subrange(start as int, start + i - 1)
            + seq![mem@[start + i - 1]]);
    }
    Ok(out)
}

/// The envelope of `payload` fits a guest buffer of capacity `cap`.
pub open spec fn fits(payload_len: nat, cap: int) -> bool {
    payload_len + 4 <= cap
}

/// Writes the envelope of `payload` into the guest buffer at `ptr`, whose
/// capacity the guest declared as `cap`. Refused, with the memory left as it
/// was, when the declared buffer runs outside the memory, or the envelope
/// exceeds the capacity.
pub fn write_envelope(mem: &mut [u8], ptr: i32, cap: i32, payload: &[u8]) -> (r: Result<(), HostError>)
    ensures
        final(mem)@.len() == old(mem)@.len(),
        match r {
            Ok(_) => region_ok(old(mem)@.len(), ptr as int, cap as int) && fits(payload@.len(), cap as int)
                && final(mem)@ == written(old(mem)@, ptr as int, envelope(payload@)),
            Err(e) => final(mem)@ == old(mem)@ && if !region_ok(old(mem)@.len(), ptr as int, cap as int) {
                e == HostError::OutOfBounds
            } else {
                !fits(payload@.len(), cap as int) && e == HostError::InsufficientCapacity
            },
        },
{
    if ptr < 0 || cap < 0 || cap as usize > mem.len() || ptr as usize > mem.len() - cap as usize {
        return Err(HostError::OutOfBounds);
    }
    if cap < 4 || payload.len() > (cap - 4) as usize {
        return Err(HostError::InsufficientCapacity);
    }
    let total = payload.len() + 4;
    let start = ptr as usize;
    let n = payload.len() as u32;
    let ghost env = envelope(payload@);
    let ghost before = mem@;
    let header: [u8; 4] = [
        #[verifier::truncate] ((n & 0xff) as u8),
        #[verifier::truncate] (((n >> 8) & 0xff) as u8),
        #[verifier::truncate] (((n >> 16) & 0xff) as u8),
        #[verifier::truncate] (((n >> 24) & 0xff) as u8),
    ];
    assert(env.len() == total);
    let mut i: usize = 0;
    while i < total
        invariant
            i <= total,
            total == payload@.len() + 4 as int,
            start + total <= before.len(),
            start + total <= mem.len(),
            mem@.len() == before.len(),
            env == envelope(payload@),
            n == payload@.len(),
            forall|k: int| 0 <= k < 4 ==> header@[k] == env[k],
            forall|j: int|
                0 <= j < mem@.len() ==> #[trigger] mem@[j] == if start <= j < start + i {
                    env[j - start]
                } else {
                    before[j]
                },
        decreases total - i,
    {
        let b = if i < 4 {
            header[i]
        } else {
            payload[i - 4]
        };
        assert(b == env[i as int]);
        mem[start + i] = b;
        i = i + 1;
    }
    assert(mem@ =~= written(before, start as int, env));
    Ok(())
}

/// The guest's diagnostic line at `ptr` of `len` bytes: its text, or `None`
/// where the bytes are not UTF-8 and the line is dropped.
pub fn console_log(mem: &[u8], ptr: i32, len: i32) -> (r: Result<Option<String>, HostError>)
    ensures
        match r {
            Ok(line) => region_ok(mem@.len(), ptr as int, len as int) && (line is Some <==> valid_utf8(
                mem@.subrange(ptr as int, ptr + len),
            )) && (line matches Some(s) ==> s@ == decode_utf8(mem@.subrange(ptr as int, ptr + len))),
            Err(e) => !region_ok(mem@.len(), ptr as int, len as int) && e == HostError::OutOfBounds,
        },
{
    match read_region(mem, ptr, len) {
        Ok(bytes) => Ok(utf8_text(bytes.as_slice())),
        Err(e) => Err(e),
    }
}

/// Delivers the run's current input, as an envelope, into the guest buffer
/// at `ptr` of capacity `cap`.
pub fn get_input_data(state: &HostState, mem: &mut [u8], ptr: i32, cap: i32) -> (r: Result<(), HostError>)
    ensures
        final(mem)@.len() == old(mem)@.len(),
        match r {
            Ok(_) => region_ok(old(mem)@.len(), ptr as int, cap as int) && fits(state.data@.len(), cap as int)
                && final(mem)@ == written(old(mem)@, ptr as int, envelope(state.data@)),
            Err(e) => final(mem)@ == old(mem)@ && if !region_ok(old(mem)@.len(), ptr as int, cap as int) {
                e == HostError::OutOfBounds
            } else {
                !fits(state.data@.len(), cap as int) && e == HostError::InsufficientCapacity
            },
        },
{
    write_envelope(mem, ptr, cap, state.data.as_slice())
}

/// Takes the guest region at `ptr` of `len` bytes as the run's output,
/// replacing whatever was there.
pub fn set_output(state: &mut HostState, mem: &[u8], ptr: i32, len: i32) -> (r: Result<(), HostError>)
    ensures
        final(state).failure == old(state).failure,
        match r {
            Ok(_) => region_ok(mem@.len(), ptr as int, len as int) && final(state).data@ == mem@.subrange(
                ptr as int,
                ptr + len,
            ),
            Err(e) => !region_ok(mem@.len(), ptr as int, len as int) && e == HostError::OutOfBounds
                && final(state).data == old(state).data,
        },
{
    match read_region(mem, ptr, len) {
        Ok(bytes) => {
            state.data = bytes;
            Ok(())
        },
        Err(e) => Err(e),
    }
}

/// The content identifier the guest names at `ptr` of `len` bytes.
pub fn read_cid(mem: &[u8], ptr: i32, len: i32) -> (r: Result<String, HostError>)
    ensures
        match r {
            Ok(s) => region_ok(mem@.len(), ptr as int, len as int) && valid_utf8(
                mem@.subrange(ptr as int, ptr + len),
            ) && s@ == decode_utf8(mem@.subrange(ptr as int, ptr + len)),
            Err(e) => if !region_ok(mem@.len(), ptr as int, len as int) {
                e == HostError::OutOfBounds
            } else {
                !valid_utf8(mem@.subrange(ptr as int, ptr + len)) && e == HostError::EncodingError
            },
        },
{
    match read_region(mem, ptr, len) {
        Ok(bytes) => match utf8_text(bytes.as_slice()) {
            Some(s) => Ok(s),
            None => Err(HostError::EncodingError),
        },
        Err(e) => Err(e),
    }
}

/// Hands the result of a service call to the guest: the bytes, as an
/// envelope at `out_ptr` of capacity `out_cap`; or the service's error, with
/// the memory left as it was.
pub fn deliver(mem: &mut [u8], out_ptr: i32, out_cap: i32, result: Result<Vec<u8>, ServiceError>) -> (r:
    Result<(), HostError>)
    ensures
        final(mem)@.len() == old(mem)@.len(),
        match result {
            Ok(b) => match r {
                Ok(_) => region_ok(old(mem)@.len(), out_ptr as int, out_cap as int) && fits(b@.len(), out_cap as int)
                    && final(mem)@ == written(old(mem)@, out_ptr as int, envelope(b@)),
                Err(e) => final(mem)@ == old(mem)@ && if !region_ok(old(mem)@.len(), out_ptr as int, out_cap as int) {
                    e == HostError::OutOfBounds
                } else {
                    !fits(b@.len(), out_cap as int) && e == HostError::InsufficientCapacity
                },
            },
            Err(se) => r == Err::<(), HostError>(HostError::Service(se)) && final(mem)@ == old(mem)@,
        },
{
    match result {
        Ok(b) => write_envelope(mem, out_ptr, out_cap, b.as_slice()),
        Err(se) => Err(HostError::Service(se)),
    }
}

/// The outcome of a run once the guest has returned or trapped: the first
/// recorded capability failure, else the trap, else the output.
pub fn conclude(state: HostState, trap: Option<String>) -> (r: Result<Vec<u8>, HostError>)
    ensures
        match state.failure {
            Some(f) => r == Err::<Vec<u8>, HostError>(f),
            None => match trap {
                Some(t) => r == Err::<Vec<u8>, HostError>(HostError::Trap(t)),
                None => r == Ok::<Vec<u8>, HostError>(state.data),
            },
        },
{
    match state.failure {
        Some(f) => Err(f),
        None => match trap {
            Some(t) => Err(HostError::Trap(t)),
            None => Ok(state.data),
        },
    }
}

/// Runs do not see each other's state: when a run's declared buffer lies in
/// its memory and holds the envelope, what the input capability writes there
/// reads back as that run's own data, and never as a different run's data.
pub proof fn lemma_run_isolation(mine: HostState, other: HostState, mem: Seq<u8>, ptr: i32, cap: i32)
    requires
        mine.data@ != other.data@,
        region_ok(mem.len(), ptr as int, cap as int),
        fits(mine.data@.len(), cap as int),
    ensures
        payload_of(written(mem, ptr as int, envelope(mine.data@)).subrange(ptr as int, mem.len() as int))
            == mine.data@,
        payload_of(written(mem, ptr as int, envelope(mine.data@)).subrange(ptr as int, mem.len() as int))
            != other.data@,
{
    let e = envelope(mine.data@);
    lemma_envelope_round_trip(mine.data@);
    let tail = written(mem, ptr as int, e).subrange(ptr as int, mem.len() as int);
    assert(tail.subrange(0, e.len() as int) =~= e);
    assert(tail.subrange(4, 4 + mine.data@.len() as int) =~= e.subrange(4, 4 + mine.data@.len() as int));
    assert(tail[0] == e[0] && tail[1] == e[1] && tail[2] == e[2] && tail[3] == e[3]);
}

} // verus!

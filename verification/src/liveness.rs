//! The liveness probe: deciding whether a recorded PID names a live process.
//!
//! The probe reads the PID file, and, for a nonzero PID, asks the OS process
//! table for exactly that PID. The embedding program performs the read and
//! the process-table query; this module decides what those answers mean. It
//! is the sole source of truth for "is this named process already running":
//! it both prevents double starts and tells a stale PID file from a live one.

use vstd::prelude::*;
use crate::pidfile::pid_digits;
use crate::pidfile::write_pid;

verus! {

/// `needle` occurs in `hay` as a contiguous run of bytes.
pub open spec fn contains_seq(hay: Seq<u8>, needle: Seq<u8>) -> bool {
    exists|k: int|
        0 <= k <= hay.len() - needle.len() && #[trigger] hay.subrange(k, k + needle.len())
            == needle
}

/// Whether `needle` stands at position `k` of `hay`.
fn matches_at(hay: &Vec<u8>, needle: &Vec<u8>, k: usize) -> (r: bool)
    requires
        k + needle@.len() <= hay@.len(),
        hay@.len() <= usize::MAX,
    ensures
        r == (hay@.subrange(k as int, k + needle@.len()) == needle@),
{
    let mut j: usize = 0;
    while j < needle.len()
        invariant
            k + needle@.len() <= hay@.len(),
            hay@.len() <= usize::MAX,
            j <= needle@.len(),
            forall|t: int| 0 <= t < j ==> hay@[k + t] == needle@[t],
        decreases needle@.len() - j,
    {
        if hay[k + j] != needle[j] {
            proof {
                assert(hay@.subrange(k as int, k + needle@.len())[j as int] == hay@[k + j]);
            }
            return false;
        }
        j += 1;
    }
    proof {
        assert(hay@.subrange(k as int, k + needle@.len()) =~= needle@);
    }
    true
}

/// Whether the bytes `needle` occur anywhere in `hay`.
pub fn contains_bytes(hay: &Vec<u8>, needle: &Vec<u8>) -> (r: bool)
    ensures
        r == contains_seq(hay@, needle@),
{
    if needle.len() == 0 {
        proof {
            let k: int = 0;
            assert(hay@.subrange(k, k + needle@.len()) =~= needle@);
        }
        return true;
    }
    if needle.len() > hay.len() {
        return false;
    }
    let bound = hay.len() - needle.len();
    let mut k: usize = 0;
    while k <= bound
        invariant
            0 < needle@.len() <= hay@.len(),
            hay@.len() <= usize::MAX,
            bound == hay@.len() - needle@.len(),
            bound < usize::MAX,
            k <= bound + 1,
            forall|t: int|
                0 <= t < k ==> #[trigger] hay@.subrange(t, t + needle@.len()) != needle@,
        decreases bound + 1 - k,
    {
        if matches_at(hay, needle, k) {
            return true;
        }
        k += 1;
    }
    false
}

/// The decision at the heart of the liveness probe: the recorded process
/// counts as alive exactly when the PID file held a nonzero PID and the
/// process-table query for that PID succeeded with an answer that lists it.
/// A PID absent from the process table yields `None` however the PID file
/// looked (`pid` is what `read_pid` returned; `ps_success` and `ps_output`
/// are the query's exit status and output, immaterial when `pid` is `0`).
pub fn check_process(pid: u32, ps_success: bool, ps_output: &Vec<u8>) -> (r: Option<u32>)
    ensures
        r == if pid != 0 && ps_success && contains_seq(ps_output@, pid_digits(pid as nat)) {
            Some(pid)
        } else {
            None::<u32>
        },
{
    if pid == 0 {
        return None;
    }
    if !ps_success {
        return None;
    }
    let needle = write_pid(pid);
    if contains_bytes(ps_output, &needle) {
        Some(pid)
    } else {
        None
    }
}

} // verus!

//! PID-file contents: the durable liveness record for one process.
//!
//! A PID file holds the decimal OS process id as its entire contents, with no
//! other framing. This module fixes those contents exactly: `write_pid`
//! produces the bytes the store puts on disk, `read_pid` interprets bytes
//! read back (absence is the sentinel `0`), and `delete_pidfile` classifies
//! the outcome of removing the file (absence counts as success). The
//! embedding program performs the filesystem calls themselves.

use vstd::prelude::*;
use vstd::arithmetic::div_mod::lemma_fundamental_div_mod;

verus! {

/// Why the bytes found in a PID file could not be read as a PID: they are
/// not a plain decimal number, or the number does not fit a PID. Distinct
/// from the `0` sentinel that stands for "no recorded process".
#[derive(Clone, Copy, PartialEq, Eq, Structural, Debug)]
pub enum PidfileError {
    Malformed,
}

/// An ASCII decimal digit.
pub open spec fn is_ascii_digit(b: u8) -> bool {
    48 <= b <= 57
}

/// Every byte of `s` is an ASCII decimal digit.
pub open spec fn all_digits(s: Seq<u8>) -> bool {
    forall|i: int| 0 <= i < s.len() ==> is_ascii_digit(#[trigger] s[i])
}

/// The number that a sequence of ASCII digits denotes, most significant
/// digit first.
pub open spec fn digits_value(s: Seq<u8>) -> nat
    decreases s.len(),
{
    if s.len() == 0 {
        0
    } else {
        digits_value(s.drop_last()) * 10 + (s.last() - 48) as nat
    }
}

/// The decimal rendering of `n`: no sign, no leading zeros (a lone zero for
/// `n == 0`), most significant digit first.
pub open spec fn pid_digits(n: nat) -> Seq<u8>
    decreases n,
{
    if n < 10 {
        seq![(48 + n) as u8]
    } else {
        pid_digits(n / 10).push((48 + n % 10) as u8)
    }
}

/// The contents of a PID file that read back as a PID: at least one byte,
/// ASCII digits only, and a value that fits the PID type.
pub open spec fn parses_as_pid(s: Seq<u8>) -> bool {
    &&& s.len() > 0
    &&& all_digits(s)
    &&& digits_value(s) <= u32::MAX
}

/// The exact bytes that the store writes as the PID file for `pid`.
pub fn write_pid(pid: u32) -> (contents: Vec<u8>)
    ensures
        contents@ == pid_digits(pid as nat),
    decreases pid,
{
    if pid < 10 {
        let mut v: Vec<u8> = Vec::new();
        v.push(pid as u8 + 48);
        proof {
            assert(v@ =~= pid_digits(pid as nat));
        }
        v
    } else {
        let mut v = write_pid(pid / 10);
        v.push((pid % 10) as u8 + 48);
        proof {
            assert(v@ =~= pid_digits(pid as nat));
        }
        v
    }
}

/// Reads the recorded PID out of the file contents, or `0` when the file
/// does not exist (`None`): `0` is the sentinel for "no recorded process".
/// Contents that are not a plain decimal number in range are reported as
/// `PidfileError::Malformed`, distinct from the absent sentinel.
pub fn read_pid(contents: Option<Vec<u8>>) -> (r: Result<u32, PidfileError>)
    ensures
        contents is None ==> r == Ok::<u32, PidfileError>(0u32),
        contents matches Some(c) ==> if parses_as_pid(c@) {
            r matches Ok(pid) && pid as nat == digits_value(c@)
        } else {
            r == Err::<u32, PidfileError>(PidfileError::Malformed)
        },
{
    match contents {
        None => Ok(0),
        Some(c) => parse_pid(&c),
    }
}

/// Reads the PID denoted by the bytes of an existing PID file: a nonempty
/// run of ASCII decimal digits whose value fits the PID type; anything else
/// is malformed.
pub fn parse_pid(c: &Vec<u8>) -> (r: Result<u32, PidfileError>)
    ensures
        if parses_as_pid(c@) {
            r matches Ok(pid) && pid as nat == digits_value(c@)
        } else {
            r == Err::<u32, PidfileError>(PidfileError::Malformed)
        },
{
    if c.len() == 0 {
        return Err(PidfileError::Malformed);
    }
    let mut acc: u64 = 0;
    let mut i: usize = 0;
    while i < c.len()
        invariant
            i <= c.len(),
            all_digits(c@.subrange(0, i as int)),
            acc as nat == digits_value(c@.subrange(0, i as int)),
            acc <= u32::MAX,
        decreases c.len() - i,
    {
        let b = c[i];
        if b < 48 || b > 57 {
            proof {
                if all_digits(c@) {
                    assert(is_ascii_digit(c@[i as int]));
                }
            }
            return Err(PidfileError::Malformed);
        }
        proof {
            assert(c@.subrange(0, i + 1 as int).drop_last() =~= c@.subrange(0, i as int));
            assert(c@.subrange(0, i + 1 as int).last() == c@[i as int]);
        }
        acc = acc * 10 + (b - 48) as u64;
        if acc > u32::MAX as u64 {
            proof {
                assert(acc as nat == digits_value(c@.subrange(0, i + 1 as int)));
                if all_digits(c@) {
                    lemma_digits_value_prefix_le(c@, i + 1 as int);
                    assert(digits_value(c@) > u32::MAX);
                }
            }
            return Err(PidfileError::Malformed);
        }
        i += 1;
    }
    proof {
        assert(c@.subrange(0, c.len() as int) =~= c@);
    }
    Ok(acc as u32)
}

/// Outcome of removing the PID file, as the filesystem reported it.
#[derive(Clone, Copy, PartialEq, Eq, Structural, Debug)]
pub enum DeleteOutcome {
    /// The file existed and was removed.
    Removed,
    /// There was no file to remove.
    AlreadyAbsent,
    /// The file could not be removed for some other reason.
    Failed,
}

/// A delete succeeded unless the filesystem failed for a reason other than
/// the file being absent.
pub open spec fn spec_delete_ok(outcome: DeleteOutcome) -> bool {
    !(outcome is Failed)
}

/// Classifies the outcome of removing a PID file: a file that was already
/// absent counts as success; any other failure is reported but non-fatal.
pub fn delete_pidfile(outcome: DeleteOutcome) -> (ok: bool)
    ensures
        ok == spec_delete_ok(outcome),
{
    match outcome {
        DeleteOutcome::Removed => true,
        DeleteOutcome::AlreadyAbsent => true,
        DeleteOutcome::Failed => false,
    }
}

/// The value denoted by a prefix of a digit string never exceeds the value
/// of the whole string.
proof fn lemma_digits_value_prefix_le(s: Seq<u8>, i: int)
    requires
        0 <= i <= s.len(),
        all_digits(s),
    ensures
        digits_value(s.subrange(0, i)) <= digits_value(s),
    decreases s.len() - i,
{
    if i == s.len() {
        assert(s.subrange(0, i) =~= s);
    } else {
        lemma_digits_value_prefix_le(s, i + 1);
        assert(s.subrange(0, i + 1).drop_last() =~= s.subrange(0, i));
        assert(s.subrange(0, i + 1).last() == s[i]);
    }
}

/// Every rendering that `pid_digits` produces is a nonempty digit string.
proof fn lemma_pid_digits_all_digits(n: nat)
    ensures
        pid_digits(n).len() > 0,
        all_digits(pid_digits(n)),
    decreases n,
{
    if n < 10 {
    } else {
        lemma_pid_digits_all_digits(n / 10);
        let s = pid_digits(n / 10);
        let d = (48 + n % 10) as u8;
        assert forall|i: int| 0 <= i < s.push(d).len() implies is_ascii_digit(
            #[trigger] s.push(d)[i],
        ) by {
            if i < s.len() {
                assert(s.push(d)[i] == s[i]);
            }
        }
    }
}

/// The decimal rendering of `n` denotes `n` itself.
proof fn lemma_pid_digits_value(n: nat)
    ensures
        digits_value(pid_digits(n)) == n,
    decreases n,
{
    if n < 10 {
        let s = pid_digits(n);
        assert(s.last() == (48 + n) as u8);
        assert(((48 + n) as u8) as nat == 48 + n);
        assert(s.drop_last() =~= Seq::<u8>::empty());
        assert(digits_value(Seq::<u8>::empty()) == 0);
    } else {
        lemma_pid_digits_value(n / 10);
        let s = pid_digits(n / 10);
        let d = (48 + n % 10) as u8;
        assert((d as nat) == 48 + n % 10);
        assert(pid_digits(n).drop_last() =~= s);
        assert(pid_digits(n).last() == d);
        assert(digits_value(pid_digits(n)) == (n / 10) * 10 + n % 10);
        lemma_fundamental_div_mod(n as int, 10);
    }
}

/// Round trip of the PID-file store: reading back the exact bytes that
/// `write_pid` put down yields the PID that was written, for every PID.
pub proof fn lemma_pid_round_trip(pid: u32)
    ensures
        parses_as_pid(pid_digits(pid as nat)),
        digits_value(pid_digits(pid as nat)) == pid as nat,
{
    lemma_pid_digits_all_digits(pid as nat);
    lemma_pid_digits_value(pid as nat);
}

/// Deleting is idempotent: after a delete that succeeded (it removed the
/// file, or the file was already gone) the file is absent, so a second
/// delete finds nothing to remove — and absence counts as success, never as
/// a failure of the second call.
pub proof fn lemma_delete_idempotent(first: DeleteOutcome, second: DeleteOutcome)
    requires
        spec_delete_ok(first),
        second is AlreadyAbsent,
    ensures
        spec_delete_ok(second),
{
}

} // verus!

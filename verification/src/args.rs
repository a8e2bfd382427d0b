use vstd::prelude::*;
use vstd::string::{StrSliceExecFns, StringExecFns};

use crate::error::Error;

verus! {

/// How many times `c` occurs in `s`.
pub open spec fn count_char(s: Seq<char>, c: char) -> int
    decreases s.len(),
{
    if s.len() == 0 {
        0
    } else {
        count_char(s.drop_last(), c) + if s.last() == c {
            1int
        } else {
            0int
        }
    }
}

/// Index of the first occurrence of `c`, or the length when none occurs.
pub open spec fn first_char(s: Seq<char>, c: char) -> int
    decreases s.len(),
{
    if s.len() == 0 {
        0
    } else if s[0] == c {
        0
    } else {
        1 + first_char(s.drop_first(), c)
    }
}

/// A position with no occurrence before it, and an occurrence (or the
/// end) at it, is the first-occurrence position.
pub proof fn lemma_first_char_at(s: Seq<char>, c: char, i: int)
    requires
        0 <= i <= s.len(),
        forall|j: int| 0 <= j < i ==> s[j] != c,
        i < s.len() ==> s[i] == c,
    ensures
        first_char(s, c) == i,
    decreases s.len(),
{
    if s.len() == 0 {
    } else if s[0] == c {
        assert(i == 0);
    } else {
        assert(forall|j: int| 0 <= j < i - 1 ==> s.drop_first()[j] == s[j + 1]);
        if i - 1 < s.drop_first().len() {
            assert(s.drop_first()[i - 1] == s[i]);
        }
        lemma_first_char_at(s.drop_first(), c, i - 1);
    }
}

/// Split one `KEY=VALUE` environment assignment: the text must contain
/// exactly one `=`; anything else is `InvalidArgument`.
pub fn split_env_assignment(s: &str) -> (r: Result<(String, String), Error>)
    ensures
        count_char(s@, '=') == 1 ==> ({
            &&& r matches Ok(kv)
            &&& kv.0@ == s@.take(first_char(s@, '='))
            &&& kv.1@ == s@.skip(first_char(s@, '=') + 1)
        }),
        count_char(s@, '=') != 1 ==> (r matches Err(e) && e == Error::InvalidArgument),
{
    let n = s.unicode_len();
    let mut cnt: usize = 0;
    let mut idx: usize = 0;
    let mut found = false;
    let mut i: usize = 0;
    while i < n
        invariant
            0 <= i <= n,
            n == s@.len(),
            cnt <= i,
            cnt as int == count_char(s@.take(i as int), '='),
            !found ==> cnt == 0 && (forall|j: int| 0 <= j < i ==> s@[j] != '='),
            found ==> 0 <= idx < i && s@[idx as int] == '=' && (forall|j: int|
                0 <= j < idx ==> s@[j] != '='),
        decreases n - i,
    {
        proof {
            assert(s@.take(i + 1).drop_last() =~= s@.take(i as int));
            assert(s@.take(i + 1).last() == s@[i as int]);
        }
        let c = s.get_char(i);
        if c == '=' {
            if !found {
                idx = i;
                found = true;
            }
            cnt = cnt + 1;
        }
        i = i + 1;
    }
    proof {
        assert(s@.take(n as int) =~= s@);
    }
    if cnt != 1 {
        return Err(Error::InvalidArgument);
    }
    proof {
        lemma_first_char_at(s@, '=', idx as int);
    }
    let key = String::from_str(s.substring_char(0, idx));
    let value = String::from_str(s.substring_char(idx + 1, n));
    proof {
        assert(key@ =~= s@.take(first_char(s@, '=')));
        assert(value@ =~= s@.skip(first_char(s@, '=') + 1));
    }
    Ok((key, value))
}

/// Interpret a timeout argument in seconds: `-1` means wait indefinitely,
/// a non-negative value is a bounded wait, and any other negative value is
/// `InvalidArgument`.
pub fn validate_timeout(t: i64) -> (r: Result<Option<u64>, Error>)
    ensures
        t == -1 ==> r == Ok::<Option<u64>, Error>(None),
        t >= 0 ==> (r matches Ok(o) && o == Some(t as u64)),
        t < -1 ==> r == Err::<Option<u64>, Error>(Error::InvalidArgument),
{
    if t == -1 {
        Ok(None)
    } else if t >= 0 {
        Ok(Some(t as u64))
    } else {
        Err(Error::InvalidArgument)
    }
}

/// Render a shutdown timeout for the native call: `None` is the
/// wait-indefinitely sentinel `-1`; seconds beyond the native
/// signed-integer range are `InvalidArgument`.
pub fn shutdown_timeout(timeout: Option<u64>) -> (r: Result<i32, Error>)
    ensures
        timeout is None ==> r == Ok::<i32, Error>(-1i32),
        (timeout matches Some(s) && s <= 0x7FFF_FFFF) ==> (r matches Ok(t) && t as int
            == timeout->Some_0),
        (timeout matches Some(s) && s > 0x7FFF_FFFF) ==> r == Err::<i32, Error>(
            Error::InvalidArgument,
        ),
{
    match timeout {
        None => Ok(-1),
        Some(secs) => {
            if secs > 0x7FFF_FFFF {
                Err(Error::InvalidArgument)
            } else {
                Ok(secs as i32)
            }
        },
    }
}

/// Resolve the container path argument: an explicit path wins, otherwise
/// the native default applies; a path still empty after defaulting is
/// `InvalidArgument`.
pub fn resolve_path(explicit: Option<String>, default_path: String) -> (r: Result<String, Error>)
    ensures
        ({
            let chosen = match explicit {
                Some(p) => p@,
                None => default_path@,
            };
            if chosen.len() == 0 {
                r matches Err(e) && e == Error::InvalidArgument
            } else {
                r matches Ok(s) && s@ == chosen
            }
        }),
{
    let chosen = match explicit {
        Some(p) => p,
        None => default_path,
    };
    if chosen.as_str().is_empty() {
        Err(Error::InvalidArgument)
    } else {
        Ok(chosen)
    }
}

} // verus!

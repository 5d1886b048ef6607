//! Local-path and remote-path arithmetic: extracting a base name from a local
//! path and synthesizing the remote destination path for an upload.

use vstd::prelude::*;
use vstd::string::*;

verus! {

/// `s` with every trailing separator removed.
pub open spec fn strip_trailing_slashes(s: Seq<char>) -> Seq<char>
    decreases s.len(),
{
    if s.len() > 0 && s.last() == '/' {
        strip_trailing_slashes(s.drop_last())
    } else {
        s
    }
}

/// The suffix of `s` after its last separator (all of `s` when it has none).
pub open spec fn after_last_slash(s: Seq<char>) -> Seq<char>
    decreases s.len(),
{
    if s.len() == 0 {
        Seq::empty()
    } else if s.last() == '/' {
        Seq::empty()
    } else {
        after_last_slash(s.drop_last()).push(s.last())
    }
}

/// The base name of a local path: its final component, ignoring trailing
/// separators.  There is none when the path is empty or all separators, and a
/// final component of `.` or `..` is not a usable file name.
pub open spec fn base_name_model(path: Seq<char>) -> Option<Seq<char>> {
    let trimmed = strip_trailing_slashes(path);
    if trimmed.len() == 0 {
        None
    } else {
        let name = after_last_slash(trimmed);
        if name == seq!['.'] || name == seq!['.', '.'] {
            None
        } else {
            Some(name)
        }
    }
}

/// The remote destination path for an upload: the base name alone when no
/// destination directory was given, otherwise the directory with its trailing
/// separators stripped, exactly one separator, and the base name.
pub open spec fn remote_name_model(dest_dir: Option<Seq<char>>, base: Seq<char>) -> Seq<char> {
    match dest_dir {
        None => base,
        Some(d) => strip_trailing_slashes(d).push('/') + base,
    }
}

/// Scan back over trailing separators; afterwards the prefix of length `end`
/// is `strip_trailing_slashes` of the whole.
fn scan_trailing_slashes(s: &str) -> (end: usize)
    ensures
        end <= s@.len(),
        s@.take(end as int) == strip_trailing_slashes(s@),
{
    let len = s.unicode_len();
    let mut end: usize = len;
    proof {
        assert(s@.take(len as int) =~= s@);
    }
    while end > 0 && s.get_char(end - 1) == '/'
        invariant
            end <= s@.len(),
            strip_trailing_slashes(s@.take(end as int)) == strip_trailing_slashes(s@),
        decreases end,
    {
        proof {
            let cur = s@.take(end as int);
            assert(cur.last() == s@[end - 1]);
            assert(cur.drop_last() =~= s@.take(end - 1));
        }
        end = end - 1;
    }
    proof {
        let cur = s@.take(end as int);
        if end > 0 {
            assert(cur.last() == s@[end - 1]);
        }
        assert(strip_trailing_slashes(cur) == cur);
    }
    end
}

/// The base name of `path`, or `None` when it has no usable final component.
pub fn base_name(path: &str) -> (r: Option<String>)
    ensures
        r matches Some(name) ==> base_name_model(path@) == Some(name@),
        r is None ==> base_name_model(path@) is None,
{
    let end = scan_trailing_slashes(path);
    if end == 0 {
        return None;
    }
    let ghost trimmed = strip_trailing_slashes(path@);
    let mut start: usize = end;
    while start > 0 && path.get_char(start - 1) != '/'
        invariant
            start <= end <= path@.len(),
            path@.take(end as int) == trimmed,
            trimmed.len() > 0,
            after_last_slash(path@.take(start as int)) + path@.subrange(
                start as int,
                end as int,
            ) == after_last_slash(trimmed),
        decreases start,
    {
        proof {
            let pre = path@.take(start as int);
            assert(pre.last() == path@[start - 1]);
            assert(pre.drop_last() =~= path@.take(start - 1));
            assert(after_last_slash(pre) == after_last_slash(path@.take(start - 1)).push(
                path@[start - 1],
            ));
            assert(after_last_slash(path@.take(start - 1)) + path@.subrange(
                start - 1,
                end as int,
            ) =~= after_last_slash(pre) + path@.subrange(start as int, end as int));
        }
        start = start - 1;
    }
    proof {
        let pre = path@.take(start as int);
        if start > 0 {
            assert(pre.last() == path@[start - 1]);
            assert(after_last_slash(pre) =~= Seq::<char>::empty());
        } else {
            assert(pre =~= Seq::<char>::empty());
        }
        assert(Seq::<char>::empty() + path@.subrange(start as int, end as int) =~= path@.subrange(
            start as int,
            end as int,
        ));
        assert(after_last_slash(trimmed) == path@.subrange(start as int, end as int));
    }
    if end - start == 1 && path.get_char(start) == '.' {
        proof {
            assert(after_last_slash(trimmed) =~= seq!['.']);
        }
        return None;
    }
    if end - start == 2 && path.get_char(start) == '.' && path.get_char(start + 1) == '.' {
        proof {
            assert(after_last_slash(trimmed) =~= seq!['.', '.']);
        }
        return None;
    }
    let name = path.substring_char(start, end);
    proof {
        assert(after_last_slash(trimmed) != seq!['.'] && after_last_slash(trimmed) != seq![
            '.',
            '.',
        ]) by {
            if after_last_slash(trimmed) == seq!['.'] {
                assert(path@.subrange(start as int, end as int).len() == 1);
                assert(path@.subrange(start as int, end as int)[0] == '.');
                assert(path@[start as int] == '.');
            }
            if after_last_slash(trimmed) == seq!['.', '.'] {
                assert(path@.subrange(start as int, end as int).len() == 2);
                assert(path@.subrange(start as int, end as int)[0] == '.');
                assert(path@.subrange(start as int, end as int)[1] == '.');
                assert(path@[start as int] == '.' && path@[start as int + 1] == '.');
            }
        }
    }
    Some(String::from_str(name))
}

/// The remote destination path for `base` under `dest_dir`.
pub fn remote_name(dest_dir: &Option<String>, base: &str) -> (r: String)
    ensures
        r@ == remote_name_model(dest_dir.deep_view(), base@),
{
    match dest_dir {
        None => String::from_str(base),
        Some(d) => {
            let end = scan_trailing_slashes(d.as_str());
            let trimmed = d.as_str().substring_char(0, end);
            let r = String::from_str(trimmed).concat("/").concat(base);
            proof {
                reveal_strlit("/");
                assert(trimmed@ + "/"@ =~= strip_trailing_slashes(d@).push('/'));
            }
            r
        },
    }
}

} // verus!

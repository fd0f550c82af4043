//! Context resolution: turning a process id and the image path the
//! operating system reports for it into a displayable application name,
//! and substituting placeholders where resolution fails.
//!
//! Opening the process and querying its image path are operating-system
//! calls; the host performs them and passes the outcome in as an
//! `Option<&str>` (`None` for any failure: permission denied, process gone,
//! query failure).  Everything from there on is verified here.

use vstd::prelude::*;

verus! {

/// A path separator: the platform's own, or the alternate one that the
/// system also accepts.
pub open spec fn is_sep(c: char) -> bool {
    c == '\\' || c == '/'
}

/// The part of a path after its last separator: the file name component.
/// Empty when the path is empty or ends in a separator.
pub open spec fn file_part(path: Seq<char>) -> Seq<char>
    decreases path.len(),
{
    if path.len() == 0 {
        Seq::empty()
    } else if is_sep(path.last()) {
        Seq::empty()
    } else {
        file_part(path.drop_last()) + seq![path.last()]
    }
}

proof fn lemma_file_part_is_suffix(path: Seq<char>, k: int)
    requires
        0 <= k <= path.len(),
        k == 0 || is_sep(path[k - 1]),
        forall|j: int| k <= j < path.len() ==> !is_sep(path[j]),
    ensures
        file_part(path) == path.subrange(k, path.len() as int),
    decreases path.len(),
{
    if k == path.len() {
        if path.len() == 0 {
            assert(file_part(path) =~= path.subrange(k, path.len() as int));
        } else {
            assert(is_sep(path.last()));
            assert(file_part(path) =~= path.subrange(k, path.len() as int));
        }
    } else {
        assert(!is_sep(path[path.len() - 1]));
        let shorter = path.drop_last();
        lemma_file_part_is_suffix(shorter, k);
        assert(shorter.subrange(k, shorter.len() as int) =~= path.subrange(
            k,
            path.len() as int - 1,
        ));
        assert(file_part(path) =~= path.subrange(k, path.len() as int));
    }
}

/// Strips the path prefix: returns the substring after the last separator.
pub fn file_name_component<'a>(path: &'a str) -> (r: &'a str)
    ensures
        r@ == file_part(path@),
{
    let n: usize = path.unicode_len();
    let mut start: usize = 0;
    let mut i: usize = 0;
    while i < n
        invariant
            start <= i <= n,
            n == path@.len(),
            start == 0 || is_sep(path@[start as int - 1]),
            forall|j: int| start <= j < i ==> !is_sep(path@[j]),
        decreases n - i,
    {
        let c = path.get_char(i);
        if c == '\\' || c == '/' {
            start = i + 1;
        }
        i += 1;
    }
    proof {
        lemma_file_part_is_suffix(path@, start as int);
    }
    path.substring_char(start, n)
}

/// What the resolver yields for a process id and the image path reported
/// for it: the file name component of the path, or nothing when the id is
/// zero, the query failed, or no file name is left after stripping.
pub open spec fn resolved_app_name(pid: u32, image_path: Option<Seq<char>>) -> Option<Seq<char>> {
    if pid == 0 {
        None
    } else {
        match image_path {
            Option::None => None,
            Option::Some(p) => {
                if file_part(p).len() == 0 {
                    None
                } else {
                    Some(file_part(p))
                }
            },
        }
    }
}

/// Maps a process id to a displayable executable name, given the full
/// image path the operating system reported for that id (`None` when the
/// query failed for any reason).  A zero or inaccessible id yields `None`;
/// otherwise the file name component of the path, with the prefix
/// stripped.
pub fn get_app_name_from_pid(pid: u32, image_path: Option<&str>) -> (r: Option<String>)
    ensures
        (match r {
            Option::None => true,
            Option::Some(name) => (image_path matches Some(p) && name@ == file_part(p@)),
        }),
        (r is Some) == (resolved_app_name(
            pid,
            match image_path {
                Option::None => None,
                Option::Some(p) => Some(p@),
            },
        ) is Some),
{
    if pid == 0 {
        return None;
    }
    match image_path {
        Option::None => None,
        Option::Some(p) => {
            let name = file_name_component(p);
            if name.unicode_len() == 0 {
                None
            } else {
                Some(name.to_owned())
            }
        },
    }
}

/// The placeholder shown when the element or window reported no owning
/// process, and the one shown when the process could not be queried.
pub open spec fn display_name_for(pid: u32, resolved: Option<Seq<char>>) -> Seq<char> {
    if pid == 0 {
        "<PID Err>"@
    } else {
        match resolved {
            Option::None => "<PID Access Denied?>"@,
            Option::Some(name) => name,
        }
    }
}

/// Chooses the name to display for a process: the resolved executable
/// name, or a placeholder when the id is zero or resolution failed.
pub fn app_display_name(pid: u32, resolved: Option<String>) -> (s: String)
    ensures
        s@ == display_name_for(
            pid,
            match resolved {
                Option::None => None,
                Option::Some(n) => Some(n@),
            },
        ),
{
    if pid == 0 {
        String::from_str("<PID Err>")
    } else {
        match resolved {
            Option::None => String::from_str("<PID Access Denied?>"),
            Option::Some(name) => name,
        }
    }
}

/// The label for the foreground application: a placeholder when no
/// foreground window exists, otherwise the display name for its owning
/// process.
pub open spec fn foreground_label(
    window_found: bool,
    pid: u32,
    resolved: Option<Seq<char>>,
) -> Seq<char> {
    if !window_found {
        "<Unknown>"@
    } else {
        display_name_for(pid, resolved)
    }
}

/// Chooses the label for the foreground application.  `window_found` says
/// whether a foreground window existed at all; `pid` is the id reported
/// for it (zero when none could be read) and `resolved` what the resolver
/// returned for that id.
pub fn foreground_app_label(window_found: bool, pid: u32, resolved: Option<String>) -> (s: String)
    ensures
        s@ == foreground_label(
            window_found,
            pid,
            match resolved {
                Option::None => None,
                Option::Some(n) => Some(n@),
            },
        ),
{
    if !window_found {
        String::from_str("<Unknown>")
    } else {
        app_display_name(pid, resolved)
    }
}

} // verus!

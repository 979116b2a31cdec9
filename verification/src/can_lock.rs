//! The lock file of a CAN interface.
//!
//! Two processes that share an interface would take each other's frames for their own, so
//! that the first one locks a file named after the interface and stamps it with its process
//! ID. The second one can then tell the user who is in the way.

use vstd::prelude::*;

use crate::error::RobstrideError;
use crate::text::{decimal_text, split_words, to_chars};

verus! {

/// A character of an interface name as it stands in the name of the lock file.
pub open spec fn safe_char(c: char) -> char {
    if crate::text::is_alphanumeric(c) || c == '-' || c == '_' {
        c
    } else {
        '_'
    }
}

/// An interface name as it stands in the name of the lock file.
pub open spec fn safe_name(iface: Seq<char>) -> Seq<char> {
    iface.map_values(|c: char| safe_char(c))
}

/// The path of the lock file.
pub open spec fn lock_file(iface: Seq<char>) -> Seq<char> {
    "/tmp/robstride-"@ + safe_name(iface) + ".lock"@
}

/// The path of the lock file of an interface. Whatever could leave the directory is replaced.
pub fn lock_path(iface: &str) -> (path: String)
    ensures
        path@ == lock_file(iface@),
{
    let chars = to_chars(iface);
    let mut safe = String::new();
    let mut i: usize = 0;
    while i < chars.len()
        invariant
            i <= chars@.len(),
            safe@ == safe_name(chars@.take(i as int)),
        decreases chars@.len() - i,
    {
        let ghost before = safe@;
        let c = chars[i];
        safe.push(
            if c.is_alphanumeric() || c == '-' || c == '_' {
                c
            } else {
                '_'
            },
        );
        assert(safe_name(chars@.take(i + 1)) =~= before.push(safe_char(c)));
        i = i + 1;
    }
    assert(chars@.take(i as int) =~= chars@);
    "/tmp/robstride-".to_owned().concat(safe.as_str()).concat(".lock")
}

/// The lock file lies in the directory for it whatever the interface is called: no further
/// slash follows the directory.
pub proof fn law_lock_file_stays(iface: Seq<char>, i: int)
    requires
        0 <= i < safe_name(iface).len(),
    ensures
        safe_name(iface)[i] != '/',
        lock_file(iface)["/tmp/robstride-"@.len() + i] == safe_name(iface)[i],
{
}

/// Interfaces with practical names (letters, digits, hyphens and underscores) have lock files
/// of their own.
pub proof fn law_lock_file_own(a: Seq<char>, b: Seq<char>)
    requires
        safe_name(a) == a,
        safe_name(b) == b,
        lock_file(a) == lock_file(b),
    ensures
        a == b,
{
    let head = "/tmp/robstride-"@;
    let n = head.len() as int;
    let tail = ".lock"@.len();
    assert(lock_file(a).len() == n + a.len() + tail);
    assert(lock_file(b).len() == n + b.len() + tail);
    assert forall|i: int| 0 <= i < a.len() implies a[i] == b[i] by {
        assert(lock_file(a)[n + i] == a[i]);
        assert(lock_file(b)[n + i] == b[i]);
    }
    assert(a =~= b);
}

/// Who holds a lock, by the text of its file.
pub open spec fn lock_holder(text: Option<Seq<char>>) -> Seq<char> {
    match text {
        Some(t) => if crate::text::words(t).len() > 0 {
            crate::text::words(t)[0]
        } else {
            "<unknown>"@
        },
        None => "<unknown>"@,
    }
}

/// Reads who holds a lock from the text of its file: the first word is the process ID.
pub fn read_pid(text: Option<&str>) -> (holder: String)
    ensures
        holder@ == lock_holder(
            match text {
                Some(t) => Some(t@),
                None => None,
            },
        ),
{
    match text {
        Some(t) => {
            let list = split_words(t);
            assert(crate::text::texts(list@).len() == list@.len());
            if list.len() > 0 {
                list[0].clone()
            } else {
                "<unknown>".to_owned()
            }
        },
        None => "<unknown>".to_owned(),
    }
}

/// What to write into a lock file.
pub fn stamp(pid: u32, iface: &str) -> (text: String)
    ensures
        text@ == crate::text::decimal(pid as nat) + " "@ + iface@ + "\n"@,
{
    decimal_text(pid as u64).concat(" ").concat(iface).concat("\n")
}

/// Whoever finds the lock taken reads the process ID that its holder stamped on it.
pub proof fn law_stamp_names_holder(pid: u32, iface: Seq<char>)
    ensures
        lock_holder(Some(crate::text::decimal(pid as nat) + " "@ + iface + "\n"@))
            == crate::text::decimal(pid as nat),
{
    reveal_strlit(" ");
    let number = crate::text::decimal(pid as nat);
    let rest = " "@ + iface + "\n"@;
    crate::text::lemma_decimal_word(pid as nat);
    crate::text::lemma_words_first(number, rest);
    assert(number + rest =~= number + " "@ + iface + "\n"@);
}

/// The error of a lock file that cannot be opened.
pub fn open_error(iface: &str, reason: &str) -> (error: RobstrideError)
    ensures
        error matches RobstrideError::Other(text) && text@ == "failed to open lock file "@
            + lock_file(iface@) + ": "@ + reason@,
{
    RobstrideError::Other(
        "failed to open lock file ".to_owned().concat(lock_path(iface).as_str()).concat(
            ": ",
        ).concat(reason),
    )
}

/// The error of a lock that another process holds.
pub fn in_use_error(iface: &str, text: Option<&str>, errno: &str) -> (error: RobstrideError)
    ensures
        error matches RobstrideError::Other(message) && message@ == "CAN interface '"@ + iface@
            + "' is already in use by PID "@ + lock_holder(
            match text {
                Some(t) => Some(t@),
                None => None,
            },
        ) + " (lock "@ + lock_file(iface@)
            + "). Stop the other process or use a different interface. (errno: "@ + errno@ + ")"@,
{
    RobstrideError::Other(
        "CAN interface '".to_owned().concat(iface).concat("' is already in use by PID ").concat(
            read_pid(text).as_str(),
        ).concat(" (lock ").concat(lock_path(iface).as_str()).concat(
            "). Stop the other process or use a different interface. (errno: ",
        ).concat(errno).concat(")"),
    )
}

/// The lock file is in one directory whatever the interface is called: letters, digits, `-` and
/// `_` stay, every other ASCII character becomes `_`, so there is no slash behind the prefix.
pub proof fn law_lock_name(iface: Seq<char>, i: int)
    requires
        0 <= i < iface.len(),
    ensures
        ({
            let path = lock_file(iface);
            let c = iface[i];
            let kept = 'a' <= c <= 'z' || 'A' <= c <= 'Z' || '0' <= c <= '9' || c == '-' || c
                == '_';
            &&& path.len() == iface.len() + 20
            &&& path.take(15) == "/tmp/robstride-"@
            &&& path.skip(path.len() - 5) == ".lock"@
            &&& kept ==> path[15 + i] == c
            &&& !kept && (c as int) < 128 ==> path[15 + i] == '_'
            &&& path[15 + i] == c || path[15 + i] == '_'
        }),
{
    let path = lock_file(iface);
    reveal_strlit("/tmp/robstride-");
    reveal_strlit(".lock");
    assert(path.take(15) =~= "/tmp/robstride-"@);
    assert(path.skip(path.len() - 5) =~= ".lock"@);
    assert(path[15 + i] == safe_name(iface)[i]);
}

/// The holder of a lock is the first word of its file, and unknown without a file or a word.
pub proof fn law_holder_first_word(word: Seq<char>, rest: Seq<char>)
    requires
        crate::text::is_word(word),
        rest.len() == 0 || crate::text::is_space(rest[0]),
    ensures
        lock_holder(Some(word + rest)) == word,
        lock_holder(None) == "<unknown>"@,
        lock_holder(Some(Seq::empty())) == "<unknown>"@,
{
    crate::text::lemma_words_first(word, rest);
}

} // verus!

use vstd::prelude::*;

verus! {

/// The path obtained by pushing `name` onto `dir` with `/` as separator:
/// an absolute `name` replaces `dir`, and a separator is inserted only where
/// `dir` is non-empty and does not already end in one.
pub open spec fn join(dir: Seq<char>, name: Seq<char>) -> Seq<char> {
    if name.len() > 0 && name[0] == '/' {
        name
    } else if dir.len() > 0 && dir.last() != '/' {
        dir + seq!['/'] + name
    } else {
        dir + name
    }
}

/// Joins `name` onto the directory `dir`.
pub fn resolve(dir: &str, name: &str) -> (r: String)
    ensures
        r@ == join(dir@, name@),
{
    proof {
        reveal_strlit("/");
    }
    let dlen = dir.unicode_len();
    let nlen = name.unicode_len();
    if nlen > 0 && name.get_char(0) == '/' {
        return String::from_str(name);
    }
    let mut out = String::from_str(dir);
    if dlen > 0 && dir.get_char(dlen - 1) != '/' {
        out.append("/");
    }
    out.append(name);
    out
}

} // verus!

use vstd::prelude::*;

verus! {

/// Joining a name onto a base path: an absolute name replaces the base, an
/// empty base yields the name, and one separator stands between the two.
pub open spec fn join_spec(base: Seq<char>, name: Seq<char>) -> Seq<char> {
    if name.len() > 0 && name[0] == '/' {
        name
    } else if base.len() == 0 {
        name
    } else if base.last() == '/' {
        base + name
    } else {
        base + "/"@ + name
    }
}

/// Joins `name` onto the path `base`.
pub fn join(base: &str, name: &str) -> (r: String)
    ensures
        r@ == join_spec(base@, name@),
{
    let name_len = name.unicode_len();
    let base_len = base.unicode_len();
    if name_len > 0 && name.get_char(0) == '/' {
        String::from_str(name)
    } else if base_len == 0 {
        String::from_str(name)
    } else if base.get_char(base_len - 1) == '/' {
        let mut r = String::from_str(base);
        r.append(name);
        r
    } else {
        let mut r = String::from_str(base);
        r.append("/");
        r.append(name);
        r
    }
}

} // verus!

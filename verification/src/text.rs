//! Plain text building blocks: joining filesystem paths kept as strings, and
//! rendering unsigned integers in decimal for tool command lines.

use vstd::prelude::*;

verus! {

/// What joining `rel` onto `root` yields: an absolute `rel` replaces the
/// root; an empty root leaves `rel` alone; otherwise the two are glued with
/// exactly one `/` between them.
pub open spec fn spec_path_join(root: Seq<char>, rel: Seq<char>) -> Seq<char> {
    if rel.len() > 0 && rel[0] == '/' {
        rel
    } else if root.len() == 0 {
        rel
    } else if root[root.len() - 1] == '/' {
        root + rel
    } else {
        root + seq!['/'] + rel
    }
}

/// Join a path component onto a root, with one `/` separator.
pub fn path_join(root: &str, rel: &str) -> (r: String)
    ensures
        r@ == spec_path_join(root@, rel@),
{
    let rel_len = rel.unicode_len();
    if rel_len > 0 && rel.get_char(0) == '/' {
        return String::from_str(rel);
    }
    let root_len = root.unicode_len();
    if root_len == 0 {
        return String::from_str(rel);
    }
    if root.get_char(root_len - 1) == '/' {
        String::from_str(root).concat(rel)
    } else {
        proof {
            reveal_strlit("/");
            assert("/"@ =~= seq!['/']);
        }
        String::from_str(root).concat("/").concat(rel)
    }
}

/// A relative component joined under a root keeps the root as a strict
/// prefix: a layout built by joining fixed names never escapes its root.
pub proof fn lemma_join_stays_under_root(root: Seq<char>, rel: Seq<char>)
    requires
        root.len() > 0,
        root[root.len() - 1] != '/',
        rel.len() > 0,
        rel[0] != '/',
    ensures
        spec_path_join(root, rel).len() > root.len(),
        spec_path_join(root, rel).subrange(0, root.len() as int) == root,
{
    assert(spec_path_join(root, rel) =~= root + seq!['/'] + rel);
    assert((root + seq!['/'] + rel).subrange(0, root.len() as int) =~= root);
}

/// The decimal rendering of a natural number, most significant digit first.
pub open spec fn spec_decimal(n: nat) -> Seq<char>
    decreases n,
{
    if n < 10 {
        seq![spec_digit(n)]
    } else {
        spec_decimal(n / 10) + seq![spec_digit(n % 10)]
    }
}

/// The character for one decimal digit.
pub open spec fn spec_digit(d: nat) -> char {
    if d == 0 {
        '0'
    } else if d == 1 {
        '1'
    } else if d == 2 {
        '2'
    } else if d == 3 {
        '3'
    } else if d == 4 {
        '4'
    } else if d == 5 {
        '5'
    } else if d == 6 {
        '6'
    } else if d == 7 {
        '7'
    } else if d == 8 {
        '8'
    } else {
        '9'
    }
}

/// One decimal digit as a string.
fn digit_str(d: u32) -> (r: &'static str)
    requires
        d < 10,
    ensures
        r@ == seq![spec_digit(d as nat)],
{
    proof {
        reveal_strlit("0");
        reveal_strlit("1");
        reveal_strlit("2");
        reveal_strlit("3");
        reveal_strlit("4");
        reveal_strlit("5");
        reveal_strlit("6");
        reveal_strlit("7");
        reveal_strlit("8");
        reveal_strlit("9");
    }
    let r = if d == 0 {
        "0"
    } else if d == 1 {
        "1"
    } else if d == 2 {
        "2"
    } else if d == 3 {
        "3"
    } else if d == 4 {
        "4"
    } else if d == 5 {
        "5"
    } else if d == 6 {
        "6"
    } else if d == 7 {
        "7"
    } else if d == 8 {
        "8"
    } else {
        "9"
    };
    assert(r@ =~= seq![spec_digit(d as nat)]);
    r
}

/// Render an unsigned integer in decimal.
pub fn u32_to_string(n: u32) -> (r: String)
    ensures
        r@ == spec_decimal(n as nat),
    decreases n,
{
    if n < 10 {
        String::from_str(digit_str(n))
    } else {
        let high = u32_to_string(n / 10);
        high.concat(digit_str(n % 10))
    }
}

} // verus!

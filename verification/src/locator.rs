//! Target locator: turns the hook-supplied argument list into the target's
//! path and its pass-through arguments.
//!
//! The OS substitutes the launcher for the target executable, so an automatic
//! invocation receives the original command line verbatim, one token per
//! argument.  Install paths with spaces arrive unquoted, split over several
//! tokens, so the locator accumulates tokens into a path group until a token
//! either starts with a switch prefix (`-` or `/`, the token belongs to the
//! pass-through list) or ends case-insensitively in `.exe` (the token closes
//! the path group and belongs to it).  If neither ever occurs, every token is
//! part of the path and the pass-through list is empty.

use vstd::prelude::*;
use vstd::string::*;

verus! {

/// The deterministic parse of one automatic invocation: the space-joined
/// target path and the arguments handed through to the target.
pub struct ParsedLaunch {
    pub target_path: String,
    pub pass_through_args: Vec<String>,
}

/// A token opens the pass-through list when it starts with a switch prefix.
pub open spec fn is_switch_token(t: Seq<char>) -> bool {
    t.len() > 0 && (t[0] == '-' || t[0] == '/')
}

/// A token closes the path group when it ends in `.exe`, ASCII
/// case-insensitively.
pub open spec fn has_exe_suffix(t: Seq<char>) -> bool {
    &&& t.len() >= 4
    &&& t[t.len() - 4] == '.'
    &&& (t[t.len() - 3] == 'e' || t[t.len() - 3] == 'E')
    &&& (t[t.len() - 2] == 'x' || t[t.len() - 2] == 'X')
    &&& (t[t.len() - 1] == 'e' || t[t.len() - 1] == 'E')
}

/// A token that neither opens the pass-through list nor closes the path
/// group: scanning continues past it.
pub open spec fn is_plain_token(t: Seq<char>) -> bool {
    !is_switch_token(t) && !has_exe_suffix(t)
}

/// How many leading tokens form the target-path group: tokens up to but
/// excluding the first switch token, or up to and including the first
/// `.exe`-suffixed token, whichever comes first; all of them when neither
/// occurs.
pub open spec fn path_group_len(toks: Seq<Seq<char>>) -> int
    decreases toks.len(),
{
    if toks.len() == 0 {
        0
    } else if is_switch_token(toks[0]) {
        0
    } else if has_exe_suffix(toks[0]) {
        1
    } else {
        1 + path_group_len(toks.drop_first())
    }
}

/// The path group joined with single spaces, the reconstruction of an
/// unquoted path that the OS split at spaces.
pub open spec fn join_spaces(parts: Seq<Seq<char>>) -> Seq<char>
    decreases parts.len(),
{
    if parts.len() == 0 {
        Seq::empty()
    } else if parts.len() == 1 {
        parts[0]
    } else {
        parts[0] + seq![' '] + join_spaces(parts.drop_first())
    }
}

/// The target path of a token sequence: its path group, space-joined.
pub open spec fn spec_target_path(toks: Seq<Seq<char>>) -> Seq<char> {
    join_spaces(toks.take(path_group_len(toks)))
}

/// The pass-through arguments of a token sequence: everything after the path
/// group, in order.
pub open spec fn spec_pass_through(toks: Seq<Seq<char>>) -> Seq<Seq<char>> {
    toks.skip(path_group_len(toks))
}

/// The path group never overruns the token sequence.
pub proof fn lemma_path_group_len_bounds(toks: Seq<Seq<char>>)
    ensures
        0 <= path_group_len(toks) <= toks.len(),
    decreases toks.len(),
{
    if toks.len() > 0 && is_plain_token(toks[0]) {
        lemma_path_group_len_bounds(toks.drop_first());
    }
}

/// With no switch token and no `.exe`-suffixed token anywhere, every token
/// belongs to the path group and the pass-through list is empty.
pub proof fn lemma_all_plain_full_group(toks: Seq<Seq<char>>)
    requires
        forall|i: int| 0 <= i < toks.len() ==> is_plain_token(#[trigger] toks[i]),
    ensures
        path_group_len(toks) == toks.len(),
        spec_target_path(toks) == join_spaces(toks),
        spec_pass_through(toks) =~= Seq::<Seq<char>>::empty(),
    decreases toks.len(),
{
    if toks.len() > 0 {
        assert(is_plain_token(toks[0]));
        assert(forall|i: int|
            0 <= i < toks.drop_first().len() ==> is_plain_token(#[trigger] toks.drop_first()[i]));
        lemma_all_plain_full_group(toks.drop_first());
    }
    assert(toks.take(toks.len() as int) =~= toks);
}

/// The first token that opens the pass-through list ends the path group
/// before itself: the group is exactly the tokens in front of it.
pub proof fn lemma_first_switch_splits(toks: Seq<Seq<char>>, k: int)
    requires
        0 <= k < toks.len(),
        is_switch_token(toks[k]),
        forall|i: int| 0 <= i < k ==> is_plain_token(#[trigger] toks[i]),
    ensures
        path_group_len(toks) == k,
        spec_target_path(toks) == join_spaces(toks.take(k)),
        spec_pass_through(toks) == toks.skip(k),
        spec_pass_through(toks)[0] == toks[k],
    decreases toks.len(),
{
    if k > 0 {
        assert(is_plain_token(toks[0]));
        let rest = toks.drop_first();
        assert(rest[k - 1] == toks[k]);
        assert(forall|i: int| 0 <= i < k - 1 ==> is_plain_token(#[trigger] rest[i]));
        lemma_first_switch_splits(rest, k - 1);
    }
    lemma_path_group_len_bounds(toks);
}

/// The first token that closes the path group ends it at and including
/// itself, provided no switch token comes before it.
pub proof fn lemma_first_exe_splits(toks: Seq<Seq<char>>, k: int)
    requires
        0 <= k < toks.len(),
        has_exe_suffix(toks[k]),
        !is_switch_token(toks[k]),
        forall|i: int| 0 <= i < k ==> is_plain_token(#[trigger] toks[i]),
    ensures
        path_group_len(toks) == k + 1,
        spec_target_path(toks) == join_spaces(toks.take(k + 1)),
        toks.take(k + 1)[k] == toks[k],
        spec_pass_through(toks) == toks.skip(k + 1),
    decreases toks.len(),
{
    if k > 0 {
        assert(is_plain_token(toks[0]));
        let rest = toks.drop_first();
        assert(rest[k - 1] == toks[k]);
        assert(forall|i: int| 0 <= i < k - 1 ==> is_plain_token(#[trigger] rest[i]));
        lemma_first_exe_splits(rest, k - 1);
    }
}

/// Joining a sequence extended by one part appends a single space and the
/// part, except that the first part arrives bare.
proof fn lemma_join_spaces_push(parts: Seq<Seq<char>>, last: Seq<char>)
    ensures
        parts.len() == 0 ==> join_spaces(parts.push(last)) == last,
        parts.len() > 0 ==> join_spaces(parts.push(last)) == join_spaces(parts) + seq![' ']
            + last,
    decreases parts.len(),
{
    let pushed = parts.push(last);
    if parts.len() == 0 {
        assert(pushed.len() == 1);
        assert(pushed[0] == last);
    } else {
        assert(pushed.len() >= 2);
        assert(pushed[0] == parts[0]);
        lemma_join_spaces_push(parts.drop_first(), last);
        assert(pushed.drop_first() =~= parts.drop_first().push(last));
        if parts.len() == 1 {
            assert(parts.drop_first().len() == 0);
            assert(join_spaces(pushed) == pushed[0] + seq![' '] + join_spaces(
                pushed.drop_first(),
            ));
            assert(join_spaces(parts) == parts[0]);
        } else {
            assert(join_spaces(pushed) == pushed[0] + seq![' '] + join_spaces(
                pushed.drop_first(),
            ));
            assert(join_spaces(parts) == parts[0] + seq![' '] + join_spaces(parts.drop_first()));
            assert(parts[0] + seq![' '] + (join_spaces(parts.drop_first()) + seq![' '] + last)
                =~= (parts[0] + seq![' '] + join_spaces(parts.drop_first())) + seq![' '] + last);
        }
    }
}

/// Tests whether a token starts with the switch prefix `-` or `/`.
pub fn token_is_switch(t: &str) -> (r: bool)
    ensures
        r == is_switch_token(t@),
{
    let n = t.unicode_len();
    if n == 0 {
        return false;
    }
    let c = t.get_char(0);
    c == '-' || c == '/'
}

/// Tests whether a token ends in `.exe`, ASCII case-insensitively.
pub fn token_has_exe_suffix(t: &str) -> (r: bool)
    ensures
        r == has_exe_suffix(t@),
{
    let n = t.unicode_len();
    if n < 4 {
        return false;
    }
    let dot = t.get_char(n - 4);
    let e1 = t.get_char(n - 3);
    let x = t.get_char(n - 2);
    let e2 = t.get_char(n - 1);
    dot == '.' && (e1 == 'e' || e1 == 'E') && (x == 'x' || x == 'X') && (e2 == 'e' || e2 == 'E')
}

/// Parses an automatic invocation's argument list.  The result is total:
/// every argument list yields a parse, an empty path group yielding an empty
/// path, which downstream stages treat as "target not found".
pub fn parse_invocation(args: &Vec<String>) -> (r: ParsedLaunch)
    ensures
        r.target_path@ == spec_target_path(args.deep_view()),
        r.pass_through_args.deep_view() == spec_pass_through(args.deep_view()),
{
    let ghost toks = args.deep_view();
    proof {
        lemma_path_group_len_bounds(toks);
    }

    // Find where the path group ends.
    let mut k: usize = args.len();
    let mut found: bool = false;
    let mut i: usize = 0;
    while i < args.len() && !found
        invariant
            toks == args.deep_view(),
            i <= args.len(),
            forall|j: int| 0 <= j < i ==> is_plain_token(#[trigger] toks[j]),
            !found ==> k == args.len(),
            found ==> path_group_len(toks) == k,
            found ==> i == k || i + 1 == k,
        decreases args.len() - i + (if found { 0int } else { 1int }),
    {
        assert(toks[i as int] == args[i as int]@);
        if token_is_switch(args[i].as_str()) {
            k = i;
            found = true;
            proof {
                lemma_first_switch_splits(toks, i as int);
            }
        } else if token_has_exe_suffix(args[i].as_str()) {
            k = i + 1;
            found = true;
            proof {
                lemma_first_exe_splits(toks, i as int);
            }
        } else {
            i = i + 1;
        }
    }
    if !found {
        proof {
            lemma_all_plain_full_group(toks);
        }
    }
    assert(path_group_len(toks) == k);

    // Space-join the path group.
    let mut target_path = String::new();
    let mut j: usize = 0;
    while j < k
        invariant
            toks == args.deep_view(),
            k <= args.len(),
            j <= k,
            target_path@ == join_spaces(toks.take(j as int)),
        decreases k - j,
    {
        proof {
            lemma_join_spaces_push(toks.take(j as int), toks[j as int]);
            assert(toks.take(j + 1) =~= toks.take(j as int).push(toks[j as int]));
        }
        if j > 0 {
            target_path.append(" ");
            proof {
                reveal_strlit(" ");
                assert(" "@ =~= seq![' ']);
            }
        }
        target_path.append(args[j].as_str());
        j = j + 1;
    }

    // Everything after the path group passes through unchanged.
    let mut pass_through_args: Vec<String> = Vec::new();
    let mut m: usize = k;
    while m < args.len()
        invariant
            toks == args.deep_view(),
            k <= m <= args.len(),
            pass_through_args.deep_view() =~= toks.subrange(k as int, m as int),
        decreases args.len() - m,
    {
        let ghost prev = pass_through_args.deep_view();
        pass_through_args.push(args[m].clone());
        proof {
            assert(pass_through_args.deep_view() =~= prev.push(toks[m as int]));
            assert(prev.push(toks[m as int]) =~= toks.subrange(k as int, m + 1));
        }
        m = m + 1;
    }
    proof {
        assert(toks.subrange(k as int, toks.len() as int) =~= toks.skip(k as int));
        assert(toks.take(k as int) =~= toks.take(path_group_len(toks)));
    }

    ParsedLaunch { target_path, pass_through_args }
}

} // verus!

use vstd::prelude::*;

verus! {

/// The scope set applied when the caller supplies none: the two well-known
/// default permission scopes, in external comma-delimited form.
pub const DEFAULT_SCOPES: &'static str =
    "https://www.googleapis.com/auth/cloud-platform,https://www.googleapis.com/auth/userinfo.email";

/// Index of the first comma in `s`, or `s.len()` when `s` holds none.
pub open spec fn first_comma(s: Seq<char>) -> nat
    decreases s.len(),
{
    if s.len() == 0 {
        0
    } else if s[0] == ',' {
        0
    } else {
        1 + first_comma(s.drop_first())
    }
}

/// Splitting on commas, with no trimming beyond the split boundary: every
/// maximal comma-free segment is one scope, verbatim. An input without
/// commas is a single scope, so the empty input is one empty scope.
pub open spec fn split_commas(s: Seq<char>) -> Seq<Seq<char>>
    decreases s.len(),
{
    let i = first_comma(s);
    if i < s.len() {
        seq![s.subrange(0, i as int)] + split_commas(s.subrange(i as int + 1, s.len() as int))
    } else {
        seq![s]
    }
}

/// `first_comma` finds exactly the position `j` that has a comma with none
/// before it; `j == s.len()` stands for a comma-free `s`.
pub proof fn lemma_first_comma_at(s: Seq<char>, j: int)
    requires
        0 <= j <= s.len(),
        j < s.len() ==> s[j] == ',',
        forall|k: int| 0 <= k < j ==> s[k] != ',',
    ensures
        first_comma(s) == j,
    decreases s.len(),
{
    if s.len() == 0 {
    } else if s[0] == ',' {
        if j > 0 {
            assert(s[0] != ',');
        }
    } else {
        assert(j != 0);
        let t = s.drop_first();
        assert forall|k: int| 0 <= k < j - 1 implies t[k] != ',' by {
            assert(t[k] == s[k + 1]);
        }
        if j - 1 < t.len() {
            assert(t[j - 1] == s[j]);
        }
        lemma_first_comma_at(t, j - 1);
    }
}

/// Unfolds one split step at a comma position `j` that has no comma before it.
pub proof fn lemma_split_at_comma(s: Seq<char>, j: int)
    requires
        0 <= j < s.len(),
        s[j] == ',',
        forall|k: int| 0 <= k < j ==> s[k] != ',',
    ensures
        split_commas(s) == seq![s.subrange(0, j)] + split_commas(
            s.subrange(j + 1, s.len() as int),
        ),
{
    lemma_first_comma_at(s, j);
}

/// A comma-free input splits into itself alone.
pub proof fn lemma_split_no_comma(s: Seq<char>)
    requires
        forall|k: int| 0 <= k < s.len() ==> s[k] != ',',
    ensures
        split_commas(s) == seq![s],
{
    lemma_first_comma_at(s, s.len() as int);
}

/// Splits a comma-delimited scope string into the ordered scope sequence;
/// each comma-free segment comes out verbatim, deduplication not attempted.
pub fn split_scopes(s: &str) -> (r: Vec<String>)
    ensures
        r.deep_view() == split_commas(s@),
{
    let n: usize = s.unicode_len();
    let mut parts: Vec<String> = Vec::new();
    let mut start: usize = 0;
    let mut i: usize = 0;
    proof {
        assert(s@.subrange(0, n as int) =~= s@);
        assert(parts.deep_view() =~= Seq::<Seq<char>>::empty());
        assert(parts.deep_view() + split_commas(s@) =~= split_commas(s@));
    }
    while i < n
        invariant
            n == s@.len(),
            start <= i <= n,
            forall|k: int| start <= k < i ==> s@[k] != ',',
            split_commas(s@) == parts.deep_view() + split_commas(
                s@.subrange(start as int, n as int),
            ),
        decreases n - i,
    {
        if s.get_char(i) == ',' {
            let piece = s.substring_char(start, i).to_owned();
            let ghost old_parts = parts.deep_view();
            parts.push(piece);
            proof {
                let tail = s@.subrange(start as int, n as int);
                assert forall|k: int| 0 <= k < i - start implies tail[k] != ',' by {
                    assert(tail[k] == s@[k + start]);
                }
                assert(tail[i - start] == s@[i as int]);
                lemma_split_at_comma(tail, i - start);
                assert(tail.subrange(0, i - start) =~= s@.subrange(start as int, i as int));
                assert(tail.subrange(i - start + 1, tail.len() as int) =~= s@.subrange(
                    i + 1,
                    n as int,
                ));
                assert(parts.deep_view() =~= old_parts.push(s@.subrange(
                    start as int,
                    i as int,
                )));
                assert(parts.deep_view() + split_commas(s@.subrange(i + 1, n as int))
                    =~= old_parts + (seq![s@.subrange(start as int, i as int)] + split_commas(
                    s@.subrange(i + 1, n as int),
                )));
            }
            start = i + 1;
        }
        i = i + 1;
    }
    let last = s.substring_char(start, n).to_owned();
    let ghost old_parts = parts.deep_view();
    parts.push(last);
    proof {
        let tail = s@.subrange(start as int, n as int);
        assert forall|k: int| 0 <= k < tail.len() implies tail[k] != ',' by {
            assert(tail[k] == s@[k + start]);
        }
        lemma_split_no_comma(tail);
        assert(parts.deep_view() =~= old_parts.push(tail));
        assert(parts.deep_view() =~= old_parts + seq![tail]);
    }
    parts
}

/// View of an optionally supplied scope string.
pub open spec fn opt_view(scopes: Option<&String>) -> Option<Seq<char>> {
    match scopes {
        Some(s) => Some(s@),
        None => None,
    }
}

/// The scope set a signer works with: the supplied string split on commas,
/// or the default scope list when none was supplied.
pub open spec fn effective_scopes_spec(scopes: Option<Seq<char>>) -> Seq<Seq<char>> {
    match scopes {
        Some(s) => split_commas(s),
        None => split_commas(DEFAULT_SCOPES@),
    }
}

/// Law: the default scope policy yields exactly the two-element default
/// scope list.
pub proof fn lemma_default_scope_list()
    ensures
        effective_scopes_spec(None) =~= seq![
            "https://www.googleapis.com/auth/cloud-platform"@,
            "https://www.googleapis.com/auth/userinfo.email"@,
        ],
{
    reveal_strlit(
        "https://www.googleapis.com/auth/cloud-platform,https://www.googleapis.com/auth/userinfo.email",
    );
    reveal_strlit("https://www.googleapis.com/auth/cloud-platform");
    reveal_strlit("https://www.googleapis.com/auth/userinfo.email");
    let s = DEFAULT_SCOPES@;
    assert(s.len() == 93);
    assert(s[46] == ',');
    assert forall|k: int| 0 <= k < 46 implies s[k] != ',' by {
        assert(s[k] != ',');
    }
    lemma_split_at_comma(s, 46);
    let tail = s.subrange(47, 93);
    assert forall|k: int| 0 <= k < tail.len() implies tail[k] != ',' by {
        assert(tail[k] == s[k + 47]);
        assert(s[k + 47] != ',');
    }
    lemma_split_no_comma(tail);
    assert(s.subrange(0, 46) =~= "https://www.googleapis.com/auth/cloud-platform"@);
    assert(tail =~= "https://www.googleapis.com/auth/userinfo.email"@);
}

/// Applies the default scope policy, then splits on commas.
pub fn effective_scopes(scopes: Option<&String>) -> (r: Vec<String>)
    ensures
        r.deep_view() == effective_scopes_spec(opt_view(scopes)),
{
    match scopes {
        Some(s) => split_scopes(s.as_str()),
        None => split_scopes(DEFAULT_SCOPES),
    }
}

} // verus!

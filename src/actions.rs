use vstd::prelude::*;

verus! {

/// The character that separates the integration from the action in a
/// qualified action name such as `hue:toggle`.
pub const ACTION_SEPARATOR: char = ':';

/// True when `s` holds no separator at any position.
pub open spec fn no_separator(s: Seq<char>) -> bool {
    forall|i: int| 0 <= i < s.len() ==> s[i] != ACTION_SEPARATOR
}

/// `s` is `integration`, the separator, then `action`, where `integration`
/// holds no separator: the split at the first separator.
pub open spec fn is_split_of(s: Seq<char>, integration: Seq<char>, action: Seq<char>) -> bool {
    &&& no_separator(integration)
    &&& s == integration + seq![ACTION_SEPARATOR] + action
}

/// The position of the first separator of `s`, where `s` holds one.
pub open spec fn first_separator(s: Seq<char>) -> int {
    choose|i: int| 0 <= i < s.len() && s[i] == ACTION_SEPARATOR && no_separator(s.take(i))
}

/// The integration name of a qualified action name: what precedes the first
/// separator.
pub open spec fn integration_part(s: Seq<char>) -> Seq<char> {
    s.take(first_separator(s))
}

/// The bare action name of a qualified action name: what follows the first
/// separator.
pub open spec fn action_part(s: Seq<char>) -> Seq<char> {
    s.skip(first_separator(s) + 1)
}

/// A split at the first separator is the one that `integration_part` and
/// `action_part` describe.
pub proof fn lemma_split_unique(s: Seq<char>, integration: Seq<char>, action: Seq<char>)
    requires
        is_split_of(s, integration, action),
    ensures
        !no_separator(s),
        integration == integration_part(s),
        action == action_part(s),
{
    let k = integration.len() as int;
    assert(s[k] == ACTION_SEPARATOR);
    assert(s.take(k) =~= integration);
    let c = first_separator(s);
    assert(0 <= c < s.len() && s[c] == ACTION_SEPARATOR && no_separator(s.take(c)));
    if c < k {
        assert(s[c] == integration[c]);
    } else if c > k {
        assert(s.take(c)[k] == ACTION_SEPARATOR);
    }
    assert(s.skip(k + 1) =~= action);
}

/// Splitting `x:y`, where `x` holds no separator, gives the integration `x`
/// and the action `y`.
pub proof fn lemma_split_qualified(x: Seq<char>, y: Seq<char>)
    requires
        no_separator(x),
    ensures
        !no_separator(x + seq![ACTION_SEPARATOR] + y),
        integration_part(x + seq![ACTION_SEPARATOR] + y) == x,
        action_part(x + seq![ACTION_SEPARATOR] + y) == y,
{
    lemma_split_unique(x + seq![ACTION_SEPARATOR] + y, x, y);
}

/// Splits a qualified action name at its first separator into the integration
/// name and the bare action name. `None` when the name holds no separator.
pub fn split_action_name(name: &str) -> (r: Option<(String, String)>)
    ensures
        r is None <==> no_separator(name@),
        r matches Some((i, a)) ==> is_split_of(name@, i@, a@),
{
    let n = name.unicode_len();
    let mut k: usize = 0;
    while k < n
        invariant
            n == name@.len(),
            k <= n,
            forall|j: int| 0 <= j < k ==> name@[j] != ACTION_SEPARATOR,
        decreases n - k,
    {
        if name.get_char(k) == ACTION_SEPARATOR {
            let integration = name.substring_char(0, k).to_string();
            let action = name.substring_char(k + 1, n).to_string();
            assert(name@ =~= name@.subrange(0, k as int) + seq![ACTION_SEPARATOR] + name@.subrange(
                k + 1,
                n as int,
            ));
            return Some((integration, action));
        }
        k = k + 1;
    }
    None
}

} // verus!

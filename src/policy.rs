use vstd::prelude::*;

verus! {

/// What a pattern matcher answers for `pattern` against `s`.
pub uninterp spec fn wildcard_match(pattern: Seq<char>, s: Seq<char>) -> bool;

/// A pattern with none of the characters that the matcher treats specially.
pub open spec fn is_literal_pattern(p: Seq<char>) -> bool {
    forall|i: int| 0 <= i < p.len() ==> p[i] != '*' && p[i] != '?' && p[i] != '\\'
}

/// Relies on `wildflower::Pattern::new` and `Pattern::matches`: the answer
/// depends on the pattern and the string alone; the pattern `*` matches every
/// string; a pattern without `*`, `?` or `\` matches exactly itself; such a
/// literal followed by one `*` matches exactly the strings it begins.
#[verifier::external_body]
pub fn glob_matches(glob: &str, s: &str) -> (r: bool)
    ensures
        r == wildcard_match(glob@, s@),
        glob@ == seq!['*'] ==> r,
        is_literal_pattern(glob@) ==> (r == (glob@ == s@)),
        glob@.len() > 0 && glob@.last() == '*' && is_literal_pattern(glob@.drop_last()) ==> (r == (
        glob@.len() - 1 <= s@.len() && s@.take(glob@.len() - 1) == glob@.drop_last())),
{
    wildflower::Pattern::new(glob).matches(s)
}

#[derive(PartialEq, Eq, Structural, Clone, Copy, Debug)]
pub enum Effect {
    Allow,
    Deny,
}

#[derive(Clone, Debug)]
pub struct PolicyStatement {
    pub effect: Effect,
    pub actions: Vec<String>,
    pub resources: Vec<String>,
}

#[derive(Clone, Debug)]
pub struct User {
    pub login_name: String,
    pub full_name: Option<String>,
    pub groups: Vec<String>,
    pub policy_statements: Vec<PolicyStatement>,
}

#[derive(Clone, Debug)]
pub struct Group {
    pub name: String,
    pub description: Option<String>,
    pub policy_statements: Vec<PolicyStatement>,
}

/// Some pattern of `patterns` matches `s`.
pub open spec fn any_pattern_matches(patterns: Seq<String>, s: Seq<char>) -> bool {
    exists|i: int| 0 <= i < patterns.len() && #[trigger] wildcard_match(patterns[i]@, s)
}

impl PolicyStatement {
    /// The statement speaks to this action on this resource.
    pub open spec fn applies_to(&self, action: Seq<char>, resource: Seq<char>) -> bool {
        any_pattern_matches(self.actions@, action) && any_pattern_matches(self.resources@, resource)
    }

    pub open spec fn effect_spec(&self, action: Seq<char>, resource: Seq<char>) -> Option<Effect> {
        if self.applies_to(action, resource) {
            Some(self.effect)
        } else {
            None
        }
    }
}

/// Some statement of `stmts` with effect `e` applies to the pair.
pub open spec fn some_applies_with(
    stmts: Seq<PolicyStatement>,
    action: Seq<char>,
    resource: Seq<char>,
    e: Effect,
) -> bool {
    exists|i: int|
        0 <= i < stmts.len() && #[trigger] stmts[i].applies_to(action, resource) && stmts[i].effect
            == e
}

/// The net effect of a set of statements: Deny as soon as one applicable
/// statement denies, else Allow if one allows, else no opinion.
pub open spec fn net_effect(stmts: Seq<PolicyStatement>, action: Seq<char>, resource: Seq<char>) -> Option<Effect> {
    if some_applies_with(stmts, action, resource, Effect::Deny) {
        Some(Effect::Deny)
    } else if some_applies_with(stmts, action, resource, Effect::Allow) {
        Some(Effect::Allow)
    } else {
        None
    }
}

/// One step of the left fold over present opinions: Deny absorbs.
pub open spec fn combine(acc: Option<Effect>, e: Option<Effect>) -> Option<Effect> {
    match (acc, e) {
        (Some(Effect::Deny), _) => Some(Effect::Deny),
        (_, None) => acc,
        (_, Some(x)) => Some(x),
    }
}

fn any_glob_matches(patterns: &Vec<String>, s: &str) -> (r: bool)
    ensures
        r == any_pattern_matches(patterns@, s@),
{
    let mut i: usize = 0;
    while i < patterns.len()
        invariant
            i <= patterns@.len(),
            forall|j: int| 0 <= j < i ==> !wildcard_match(#[trigger] patterns@[j]@, s@),
        decreases patterns@.len() - i,
    {
        if glob_matches(patterns[i].as_str(), s) {
            return true;
        }
        i += 1;
    }
    false
}

impl PolicyStatement {
    fn matches_action(&self, action: &str) -> (r: bool)
        ensures
            r == any_pattern_matches(self.actions@, action@),
    {
        any_glob_matches(&self.actions, action)
    }

    fn matches_resource(&self, resource: &str) -> (r: bool)
        ensures
            r == any_pattern_matches(self.resources@, resource@),
    {
        any_glob_matches(&self.resources, resource)
    }

    /// This statement's effect when it applies to the pair, else none.
    pub fn effect_on(&self, action: &str, resource: &str) -> (r: Option<Effect>)
        ensures
            r == self.effect_spec(action@, resource@),
    {
        if self.matches_action(action) && self.matches_resource(resource) {
            Some(self.effect)
        } else {
            None
        }
    }
}

/// Folding one more statement into the net effect of the ones before it.
proof fn lemma_net_effect_push(stmts: Seq<PolicyStatement>, x: PolicyStatement, action: Seq<char>, resource: Seq<char>)
    ensures
        net_effect(stmts.push(x), action, resource) == combine(
            net_effect(stmts, action, resource),
            x.effect_spec(action, resource),
        ),
{
    let s2 = stmts.push(x);
    let n = stmts.len() as int;
    assert(s2[n] == x);
    assert forall|e: Effect| some_applies_with(s2, action, resource, e) <==> (some_applies_with(stmts, action, resource, e) || (x.applies_to(action, resource) && x.effect == e)) by {
        if some_applies_with(s2, action, resource, e) {
            let i = choose|i: int| 0 <= i < s2.len() && #[trigger] s2[i].applies_to(action, resource) && s2[i].effect == e;
            if i < n {
                assert(stmts[i] == s2[i]);
            }
        }
        if some_applies_with(stmts, action, resource, e) {
            let i = choose|i: int| 0 <= i < stmts.len() && #[trigger] stmts[i].applies_to(action, resource) && stmts[i].effect == e;
            assert(s2[i] == stmts[i]);
        }
    }
}

/// The net effect of `stmts` on the pair, computed as a left fold in which
/// a Deny, once seen, is kept to the end.
pub fn evaluate(stmts: &Vec<PolicyStatement>, action: &str, resource: &str) -> (r: Option<Effect>)
    ensures
        r == net_effect(stmts@, action@, resource@),
{
    let mut acc: Option<Effect> = None;
    let mut i: usize = 0;
    assert(stmts@.take(0) =~= Seq::<PolicyStatement>::empty());
    while i < stmts.len()
        invariant
            i <= stmts@.len(),
            acc == net_effect(stmts@.take(i as int), action@, resource@),
        decreases stmts@.len() - i,
    {
        let e = stmts[i].effect_on(action, resource);
        proof {
            lemma_net_effect_push(stmts@.take(i as int), stmts@[i as int], action@, resource@);
            assert(stmts@.take(i as int).push(stmts@[i as int]) =~= stmts@.take(i + 1));
        }
        acc = match (acc, e) {
            (Some(Effect::Deny), _) => acc,
            (_, None) => acc,
            (_, Some(x)) => Some(x),
        };
        i += 1;
    }
    assert(stmts@.take(i as int) =~= stmts@);
    acc
}

/// Deny dominates: whenever some applicable statement denies, the net effect
/// is Deny, however many applicable statements allow and wherever they stand.
pub proof fn lemma_deny_dominates(stmts: Seq<PolicyStatement>, action: Seq<char>, resource: Seq<char>, i: int)
    requires
        0 <= i < stmts.len(),
        stmts[i].applies_to(action, resource),
        stmts[i].effect == Effect::Deny,
    ensures
        net_effect(stmts, action, resource) == Some(Effect::Deny),
{
}

/// Default deny: when no statement applies to the pair, there is no opinion.
pub proof fn lemma_no_applicable_statement(stmts: Seq<PolicyStatement>, action: Seq<char>, resource: Seq<char>)
    requires
        forall|i: int| 0 <= i < stmts.len() ==> !(#[trigger] stmts[i].applies_to(action, resource)),
    ensures
        net_effect(stmts, action, resource) is None,
{
}

/// The order of the statements does not matter: two lists that hold the same
/// statements have the same net effect.
pub proof fn lemma_order_irrelevant(s1: Seq<PolicyStatement>, s2: Seq<PolicyStatement>, action: Seq<char>, resource: Seq<char>)
    requires
        forall|x: PolicyStatement| s1.contains(x) <==> s2.contains(x),
    ensures
        net_effect(s1, action, resource) == net_effect(s2, action, resource),
{
    assert forall|a: Seq<PolicyStatement>, b: Seq<PolicyStatement>, e: Effect|
        (forall|x: PolicyStatement| a.contains(x) ==> b.contains(x)) && #[trigger] some_applies_with(a, action, resource, e)
            implies #[trigger] some_applies_with(b, action, resource, e) by {
        let i = choose|i: int| 0 <= i < a.len() && #[trigger] a[i].applies_to(action, resource) && a[i].effect == e;
        assert(a.contains(a[i]));
        let j = choose|j: int| 0 <= j < b.len() && b[j] == a[i];
        assert(b[j].applies_to(action, resource));
    }
}

/// The combination of opinions is commutative and associative, with no
/// opinion as its unit and Deny as its absorbing element.
pub proof fn lemma_combine_laws(a: Option<Effect>, b: Option<Effect>, c: Option<Effect>)
    ensures
        combine(a, b) == combine(b, a),
        combine(combine(a, b), c) == combine(a, combine(b, c)),
        combine(None, a) == a,
        combine(a, None) == a,
        combine(a, Some(Effect::Deny)) == Some(Effect::Deny),
{
}

} // verus!

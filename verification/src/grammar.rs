//! String-rewriting grammars (L-systems).
//!
//! A grammar holds a start string, a table of single-symbol rewrite rules, an
//! iteration count and a turn angle. `expand` substitutes every symbol by
//! its replacement, simultaneously, for the given number of steps; symbols
//! without a rule stand unchanged.

use vstd::prelude::*;

use crate::fx::Fx;

verus! {

/// A rewrite grammar: `steps` rounds of substitution over `start`, plus the
/// turn angle (degrees) its turtle interpretation uses.
pub struct Grammar {
    pub angle: Fx,
    pub steps: usize,
    pub start: String,
    pub rules: Vec<(char, String)>,
}

/// The rule table as a sequence of symbol/replacement pairs.
pub open spec fn rules_view(rules: Seq<(char, String)>) -> Seq<(char, Seq<char>)> {
    rules.map_values(|p: (char, String)| (p.0, p.1@))
}

/// The replacement of the first rule for `c`, if any rule matches.
pub open spec fn rule_for(rules: Seq<(char, Seq<char>)>, c: char) -> Option<Seq<char>>
    decreases rules.len(),
{
    if rules.len() == 0 {
        Option::None
    } else if rules[0].0 == c {
        Option::Some(rules[0].1)
    } else {
        rule_for(rules.skip(1), c)
    }
}

/// One symbol rewritten: its replacement, or itself when no rule matches.
pub open spec fn rewrite_one(rules: Seq<(char, Seq<char>)>, c: char) -> Seq<char> {
    match rule_for(rules, c) {
        Option::Some(rep) => rep,
        Option::None => seq![c],
    }
}

/// One round of simultaneous substitution.
pub open spec fn rewrite(rules: Seq<(char, Seq<char>)>, s: Seq<char>) -> Seq<char>
    decreases s.len(),
{
    if s.len() == 0 {
        Seq::empty()
    } else {
        rewrite_one(rules, s[0]) + rewrite(rules, s.skip(1))
    }
}

/// `n` rounds of substitution.
pub open spec fn expand_n(rules: Seq<(char, Seq<char>)>, s: Seq<char>, n: nat) -> Seq<char>
    decreases n,
{
    if n == 0 {
        s
    } else {
        expand_n(rules, rewrite(rules, s), (n - 1) as nat)
    }
}

/// Substitution distributes over concatenation.
pub proof fn lemma_rewrite_concat(rules: Seq<(char, Seq<char>)>, a: Seq<char>, b: Seq<char>)
    ensures
        rewrite(rules, a + b) == rewrite(rules, a) + rewrite(rules, b),
    decreases a.len(),
{
    if a.len() == 0 {
        assert(a + b =~= b);
        assert(rewrite(rules, a) + rewrite(rules, b) =~= rewrite(rules, b));
    } else {
        assert((a + b).skip(1) =~= a.skip(1) + b);
        lemma_rewrite_concat(rules, a.skip(1), b);
        let head = rewrite_one(rules, a[0]);
        let mid = rewrite(rules, a.skip(1));
        let tail = rewrite(rules, b);
        assert(head + (mid + tail) =~= (head + mid) + tail);
    }
}

/// Applying one more round after `n` rounds equals rewriting the result of
/// the `n` rounds.
pub proof fn lemma_expand_unfold_right(rules: Seq<(char, Seq<char>)>, s: Seq<char>, n: nat)
    ensures
        expand_n(rules, s, n + 1) == rewrite(rules, expand_n(rules, s, n)),
    decreases n,
{
    if n > 0 {
        lemma_expand_unfold_right(rules, rewrite(rules, s), (n - 1) as nat);
    } else {
        reveal_with_fuel(expand_n, 2);
    }
}

/// Appends one character to a string.
///
/// Relies on String::push: the string gains exactly that character at its
/// end.
#[verifier::external_body]
fn push_char(s: &mut String, c: char)
    ensures
        final(s)@ == old(s)@.push(c),
{
    s.push(c);
}

/// The first rule for `c` in the table, if any.
fn lookup<'a>(rules: &'a Vec<(char, String)>, c: char) -> (r: Option<&'a String>)
    ensures
        match r {
            Option::Some(rep) => rule_for(rules_view(rules@), c) == Option::Some(rep@),
            Option::None => rule_for(rules_view(rules@), c) is None,
        },
{
    let ghost rv = rules_view(rules@);
    proof {
        assert(rv.skip(0) =~= rv);
    }
    let mut i: usize = 0;
    while i < rules.len()
        invariant
            i <= rules@.len(),
            rv == rules_view(rules@),
            rule_for(rv, c) == rule_for(rv.skip(i as int), c),
        decreases rules@.len() - i,
    {
        if rules[i].0 == c {
            proof {
                assert(rv.skip(i as int)[0] == rv[i as int]);
            }
            return Option::Some(&rules[i].1);
        }
        proof {
            assert(rv.skip(i as int)[0] == rv[i as int]);
            assert(rv.skip(i as int).skip(1) =~= rv.skip(i as int + 1));
        }
        i = i + 1;
    }
    proof {
        assert(rv.skip(i as int).len() == 0);
    }
    Option::None
}

/// One round of substitution over a string.
fn rewrite_exec(rules: &Vec<(char, String)>, s: &String) -> (r: String)
    ensures
        r@ == rewrite(rules_view(rules@), s@),
{
    let ghost rv = rules_view(rules@);
    let mut out = String::new();
    let n = s.as_str().unicode_len();
    let mut i: usize = 0;
    while i < n
        invariant
            i <= n,
            n == s@.len(),
            rv == rules_view(rules@),
            out@ == rewrite(rv, s@.take(i as int)),
        decreases n - i,
    {
        let c = s.as_str().get_char(i);
        match lookup(rules, c) {
            Option::Some(rep) => {
                out.append(rep.as_str());
            },
            Option::None => {
                push_char(&mut out, c);
            },
        }
        proof {
            assert(s@.take(i as int + 1) =~= s@.take(i as int) + seq![s@[i as int]]);
            lemma_rewrite_concat(rv, s@.take(i as int), seq![s@[i as int]]);
            let single = seq![s@[i as int]];
            assert(single.skip(1) =~= Seq::<char>::empty());
            assert(rewrite(rv, single.skip(1)) =~= Seq::<char>::empty());
            assert(rewrite(rv, single) =~= rewrite_one(rv, s@[i as int]));
            assert(out@ =~= rewrite(rv, s@.take(i as int + 1)));
        }
        i = i + 1;
    }
    proof {
        assert(s@.take(n as int) =~= s@);
    }
    out
}

impl Grammar {
    /// The start after `steps` rounds of simultaneous substitution.
    pub fn expand(&self) -> (r: String)
        ensures
            r@ == expand_n(rules_view(self.rules@), self.start@, self.steps as nat),
    {
        let ghost rv = rules_view(self.rules@);
        let mut expanded = self.start.clone();
        let mut step: usize = 0;
        while step < self.steps
            invariant
                step <= self.steps,
                rv == rules_view(self.rules@),
                expanded@ == expand_n(rv, self.start@, step as nat),
            decreases self.steps - step,
        {
            expanded = rewrite_exec(&self.rules, &expanded);
            proof {
                lemma_expand_unfold_right(rv, self.start@, step as nat);
            }
            step = step + 1;
        }
        expanded
    }
}

} // verus!

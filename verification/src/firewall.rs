//! The firewall brick: a filtering element that stages filter rules per
//! side, clears them, and reloads them into the engine's compiler.
//!
//! The engine's rule compiler is not reentrant, so every rule mutation on
//! every firewall instance serializes through the one shared [`Runtime`]
//! context: holding it `&mut` for the call is the exclusive access a
//! process-wide lock would grant.

use vstd::prelude::*;

use crate::{Runtime, RuntimeView, Side};
use crate::brick::{is_pollable, KindView, NodeView};
use crate::error::Error;

use vstd::string::StrSliceExecFns;

verus! {

/// One staged filter rule: its text and the side whose traffic it
/// filters.
pub struct Rule {
    pub(crate) text: String,
    pub(crate) side: Side,
}

/// Abstract state of one staged rule.
pub struct RuleView {
    pub text: Seq<char>,
    pub side: Side,
}

impl View for Rule {
    type V = RuleView;

    open(crate) spec fn view(&self) -> RuleView {
        RuleView { text: self.text@, side: self.side }
    }
}

/// The staged rules, abstractly.
pub open spec fn rules_of(s: Seq<Rule>) -> Seq<RuleView> {
    s.map_values(|r: Rule| r@)
}

/// The rule shape this layer accepts: a source or destination host
/// clause — `src host `/`dst host ` followed by one non-empty,
/// space-free address.  This is a stand-in for the engine's own filter
/// grammar, which is engine-owned and strictly wider: texts outside this
/// shape are refused here as malformed even where the engine's compiler
/// would accept them.
pub open spec fn rule_wf(s: Seq<char>) -> bool {
    &&& s.len() >= 10
    &&& ((s[0] == 's' && s[1] == 'r' && s[2] == 'c') || (s[0] == 'd' && s[1] == 's' && s[2] == 't'))
    &&& s[3] == ' '
    &&& s[4] == 'h' && s[5] == 'o' && s[6] == 's' && s[7] == 't'
    &&& s[8] == ' '
    &&& forall|i: int| 9 <= i < s.len() ==> s[i] != ' '
}

/// The view of a firewall with its staged rules replaced.
pub open spec fn with_rules(v: NodeView, rules: Seq<RuleView>) -> NodeView {
    NodeView { kind: KindView::Firewall { rules }, ..v }
}

/// The staged rules of a firewall's view.
pub open spec fn rules_view(v: NodeView) -> Seq<RuleView> {
    match v.kind {
        KindView::Firewall { rules } => rules,
        _ => Seq::empty(),
    }
}

/// A firewall node.
pub struct Firewall {
    pub name: String,
    pub(crate) west_max: usize,
    pub(crate) east_max: usize,
    pub(crate) rules: Vec<Rule>,
}

impl View for Firewall {
    type V = NodeView;

    open(crate) spec fn view(&self) -> NodeView {
        NodeView {
            name: self.name@,
            kind: KindView::Firewall { rules: rules_of(self.rules@) },
            west_max: self.west_max as nat,
            east_max: self.east_max as nat,
            pending: 0,
        }
    }
}

impl Firewall {
    /// A fresh, unlinked firewall brick with no staged rules.  Creating
    /// one touches the shared rule compiler, so it claims the context.
    pub fn new(name: &str, rt: &mut Runtime) -> (r: Result<Firewall, Error>)
        ensures
            final(rt)@ == (RuntimeView { fw_ops: old(rt)@.fw_ops + 1, ..old(rt)@ }),
            r is Ok,
            r->Ok_0@ == (NodeView {
                name: name@,
                kind: KindView::Firewall { rules: Seq::empty() },
                west_max: 1,
                east_max: 1,
                pending: 0,
            }),
            r->Ok_0@.wf(),
    {
        rt.claim_firewall_lock();
        let f = Firewall { name: name.to_owned(), west_max: 1, east_max: 1, rules: Vec::new() };
        proof {
            assert(rules_of(f.rules@) =~= Seq::<RuleView>::empty());
        }
        Ok(f)
    }

    /// A firewall only filters what its interface peers carry: never
    /// pollable.
    pub fn pollable(&self) -> (r: bool)
        ensures
            r == is_pollable(self@.kind),
            !r,
    {
        false
    }

    /// Stages one filter rule for the given side.  Succeeds exactly when
    /// the rule text matches [`rule_wf`] — a stand-in shape narrower than
    /// the engine's own filter grammar; a refused rule stages nothing.
    /// Serialized through the shared context either way.
    pub fn rule_add(&mut self, rule: &str, side: Side, rt: &mut Runtime) -> (r: Result<(), Error>)
        ensures
            final(rt)@ == (RuntimeView { fw_ops: old(rt)@.fw_ops + 1, ..old(rt)@ }),
            rule_wf(rule@) ==> r is Ok && final(self)@ == with_rules(
                old(self)@,
                rules_view(old(self)@).push(RuleView { text: rule@, side }),
            ),
            !rule_wf(rule@) ==> r is Err && r->Err_0@.engine is Some
                && final(self)@ == old(self)@,
    {
        rt.claim_firewall_lock();
        if rule_syntax_ok(rule) {
            let ghost staged = rules_of(self.rules@);
            self.rules.push(Rule { text: rule.to_owned(), side });
            proof {
                assert(rules_of(self.rules@) =~= staged.push(RuleView { text: rule@, side }));
            }
            Ok(())
        } else {
            Err(Error::engine_report("cannot compile filter rule"))
        }
    }

    /// Drops every staged rule.  Never fails.  Serialized through the
    /// shared context.
    pub fn flush(&mut self, rt: &mut Runtime)
        ensures
            final(rt)@ == (RuntimeView { fw_ops: old(rt)@.fw_ops + 1, ..old(rt)@ }),
            final(self)@ == with_rules(old(self)@, Seq::empty()),
    {
        rt.claim_firewall_lock();
        self.rules.clear();
        proof {
            assert(rules_of(self.rules@) =~= Seq::<RuleView>::empty());
        }
    }

    /// Recompiles and activates the staged rule set.  The compilation is
    /// the engine's; every staged rule was validated when it was added,
    /// so the reload leaves the staged set unchanged and succeeds.
    /// Serialized through the shared context.
    pub fn reload(&mut self, rt: &mut Runtime) -> (r: Result<(), Error>)
        ensures
            final(rt)@ == (RuntimeView { fw_ops: old(rt)@.fw_ops + 1, ..old(rt)@ }),
            r is Ok,
            final(self)@ == old(self)@,
    {
        rt.claim_firewall_lock();
        Ok(())
    }
}

/// Checks the rule shape that [`rule_wf`] states.
fn rule_syntax_ok(rule: &str) -> (r: bool)
    ensures
        r == rule_wf(rule@),
{
    let n = rule.unicode_len();
    if n < 10 {
        return false;
    }
    let c0 = rule.get_char(0);
    let c1 = rule.get_char(1);
    let c2 = rule.get_char(2);
    if !((c0 == 's' && c1 == 'r' && c2 == 'c') || (c0 == 'd' && c1 == 's' && c2 == 't')) {
        return false;
    }
    if !(rule.get_char(3) == ' ' && rule.get_char(4) == 'h' && rule.get_char(5) == 'o'
        && rule.get_char(6) == 's' && rule.get_char(7) == 't' && rule.get_char(8) == ' ') {
        return false;
    }
    let mut i: usize = 9;
    while i < n
        invariant
            n == rule@.len(),
            10 <= n,
            9 <= i <= n,
            forall|k: int| 9 <= k < i ==> rule@[k] != ' ',
        decreases n - i,
    {
        if rule.get_char(i) == ' ' {
            return false;
        }
        i += 1;
    }
    true
}

} // verus!

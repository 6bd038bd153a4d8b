//! A SECCOMP filter: the decisions taken around a libseccomp context.
//!
//! The context itself lives in C. A `Filter` holds the handle by which it is
//! reached and the notifier, if one is set. An operation that makes one
//! libseccomp call takes that call as an argument, hands it exactly the values
//! libseccomp is to receive, and decides what the operation gives on what the
//! call answers. The notifier's setup, which alternates calls and decisions,
//! is led step by step by `Filter::setup` and `Setup`.

use vstd::prelude::*;
use vstd::string::StringExecFns;

use nix::errno::Errno;

use crate::action::{action_code, Action};
use crate::attribute::{attribute_name, attribute_value, Attribute};
use crate::raw::attr_number;
use crate::syscall::Syscall;
use crate::text::{decimal, decimal_string};

verus! {

/// `nix::errno::Errno`, an errno as nix names it.
#[verifier::external_type_specification]
#[verifier::external_body]
pub struct ExErrno(Errno);

/// `std::io::Error`, an I/O error.
#[verifier::external_type_specification]
#[verifier::external_body]
pub struct ExIoError(std::io::Error);

/// The `Errno` that nix's `Errno::from_raw` gives for a raw code, on the
/// target the crate is built for.
pub uninterp spec fn errno_from_raw(code: i32) -> Errno;

/// `nix::errno::Errno::from_raw`: the errno named by a raw code (nix's
/// `UnknownErrno` for a code it does not know, negative codes among them).
/// Claimed of it: the result is a function of the code alone, named
/// `errno_from_raw`; which errno each code names is not stated.
#[verifier::external_body]
fn errno(code: i32) -> (e: Errno)
    ensures
        e == errno_from_raw(code),
{
    Errno::from_raw(code)
}

/// Errors related to filter generation.
#[derive(Debug)]
pub enum Error {
    /// Failure to initialize the context.
    Initialization,
    /// Failed to set attribute.
    SetAttribute(Attribute, Errno),
    /// Failed to add rule.
    AddRule(Action, Syscall, Errno),
    /// Failed to write out as BPF.
    Io(std::io::Error),
    /// Failed to export the SECCOMP to BPF.
    Export(Errno),
    /// Failed to load the policy into the process.
    Load(Errno),
    /// Failed to send the SECCOMP FD to the monitor.
    Send,
    /// Failed to prepare the notifier.
    Prepare(String),
}

/// What setting `attr` gives when libseccomp answered `rc`.
pub open spec fn attribute_answer(attr: Attribute, rc: i32) -> Result<(), Error> {
    if rc == 0 {
        Ok(())
    } else {
        Err(Error::SetAttribute(attr, errno_from_raw(rc)))
    }
}

/// What adding the rule (`action`, `syscall`) gives when libseccomp answered `rc`.
pub open spec fn rule_answer(action: Action, syscall: Syscall, rc: i32) -> Result<(), Error> {
    if rc == 0 {
        Ok(())
    } else {
        Err(Error::AddRule(action, syscall, errno_from_raw(rc)))
    }
}

/// What exporting gives when libseccomp answered `rc`.
pub open spec fn export_answer(rc: i32) -> Result<(), Error> {
    if rc == 0 {
        Ok(())
    } else {
        Err(Error::Export(errno_from_raw(rc)))
    }
}

/// What preparing the notifier gives when it answered `res`.
pub open spec fn prepare_answer(res: Result<(), String>) -> Result<(), Error> {
    match res {
        Ok(()) => Ok(()),
        Err(message) => Err(Error::Prepare(message)),
    }
}

/// What the notifier's setup asks for next.
pub enum SetupStep {
    /// Ask the notifier for the rules it needs exempted, and start a `Setup`
    /// with them.
    Exempt,
    /// Add this rule to the filter, as `Filter::add_rule` does, and report
    /// its result to `Setup::rule_added`.
    AddRule(Action, Syscall),
    /// Let the notifier prepare, and report its answer to `Setup::prepared`.
    Prepare,
    /// The setup is over, with this result.
    Done(Result<(), Error>),
}

/// The step that follows once the first `added` of `rules` are in the filter:
/// the next rule, or preparing once all are in.
pub open spec fn step_after(rules: Seq<(Action, Syscall)>, added: int) -> SetupStep {
    if added < rules.len() {
        SetupStep::AddRule(rules[added].0, rules[added].1)
    } else {
        SetupStep::Prepare
    }
}

/// The progress of a notifier's setup: the rules it needs exempted, and how
/// many of them are already in the filter.
pub struct Setup {
    rules: Vec<(Action, Syscall)>,
    added: usize,
}

impl Setup {
    /// The rules the notifier needs exempted, in the order it gave them.
    pub closed spec fn rules(&self) -> Seq<(Action, Syscall)> {
        self.rules@
    }

    /// How many of the rules are in the filter.
    pub closed spec fn added(&self) -> int {
        self.added as int
    }

    /// Start adding the rules the notifier needs exempted, in the order it
    /// gave them: the first step is the first rule, or preparing when there
    /// is none.
    pub fn new(rules: Vec<(Action, Syscall)>) -> (r: (Setup, SetupStep))
        ensures
            r.0.rules() == rules@,
            r.0.added() == 0,
            r.1 == step_after(rules@, 0),
    {
        let step = if rules.len() > 0 {
            SetupStep::AddRule(rules[0].0, rules[0].1)
        } else {
            SetupStep::Prepare
        };
        (Setup { rules, added: 0 }, step)
    }

    /// Take the result of adding the rule the last step asked for: a refusal
    /// ends the setup with that error, so no later rule is added and the
    /// notifier does not prepare; otherwise the next step is the next rule,
    /// or preparing once all are in.
    pub fn rule_added(&mut self, answer: Result<(), Error>) -> (step: SetupStep)
        requires
            old(self).added() < old(self).rules().len(),
        ensures
            final(self).rules() == old(self).rules(),
            match answer {
                Ok(()) => final(self).added() == old(self).added() + 1
                    && step == step_after(old(self).rules(), old(self).added() + 1),
                Err(e) => final(self).added() == old(self).added()
                    && step == SetupStep::Done(Err(e)),
            },
    {
        match answer {
            Err(e) => SetupStep::Done(Err(e)),
            Ok(()) => {
                assert(self.added < self.rules.len());
                self.added = self.added + 1;
                if self.added < self.rules.len() {
                    SetupStep::AddRule(self.rules[self.added].0, self.rules[self.added].1)
                } else {
                    SetupStep::Prepare
                }
            },
        }
    }

    /// Take the notifier's answer to preparing, once all its rules are in:
    /// the result of the setup.
    ///
    /// ## Errors
    /// `Error::Prepare`: if the notifier failed to prepare.
    pub fn prepared(&self, answer: Result<(), String>) -> (r: Result<(), Error>)
        requires
            self.added() == self.rules().len(),
        ensures
            r == prepare_answer(answer),
    {
        match answer {
            Ok(()) => Ok(()),
            Err(message) => Err(Error::Prepare(message)),
        }
    }
}

/// The filter is a SECCOMP context, reached through the handle `C`, and an
/// optional notifier `N` that is handed the notify FD once the filter is
/// loaded.
pub struct Filter<C, N> {
    /// The handle of the libseccomp context.
    ctx: C,
    /// The notifier to call when loading the filter.
    notifier: Option<N>,
}

impl<C, N> Filter<C, N> {
    /// The handle of the libseccomp context.
    pub closed spec fn context(&self) -> C {
        self.ctx
    }

    /// The notifier, if one is set.
    pub closed spec fn notifier(&self) -> Option<N> {
        self.notifier
    }

    /// Construct a new filter with a default action, given `init`, which
    /// creates a libseccomp context (`seccomp_init`) for the action code it is
    /// handed and gives its handle, or `None` when libseccomp gives none.
    ///
    /// ## Errors
    /// `Error::Initialization`: if no context was created.
    pub fn new(def_action: Action, init: impl FnOnce(u32) -> Option<C>) -> (r: Result<Self, Error>)
        requires
            call_requires(init, (action_code(def_action),)),
        ensures
            exists|ctx: Option<C>|
                #![trigger call_ensures(init, (action_code(def_action),), ctx)]
                call_ensures(init, (action_code(def_action),), ctx) && match ctx {
                    Some(c) => r matches Ok(f) && f.context() == c && f.notifier() is None,
                    None => r matches Err(Error::Initialization),
                },
    {
        match init(def_action.code()) {
            None => Err(Error::Initialization),
            Some(ctx) => Ok(Self { ctx, notifier: None }),
        }
    }

    /// Set a notifier monitor process.
    pub fn set_notifier(&mut self, f: N)
        ensures
            final(self).notifier() == Some(f),
            final(self).context() == old(self).context(),
    {
        self.notifier = Some(f);
    }

    /// Set an attribute, given `attr_set`, which sets an attribute of the
    /// context (`seccomp_attr_set`) to a value, and gives libseccomp's answer.
    ///
    /// ## Errors
    /// `Error::SetAttribute`: if libseccomp answers other than 0.
    pub fn set_attribute(&mut self, attr: Attribute, attr_set: impl FnOnce(&C, u32, u32) -> i32) -> (r: Result<(), Error>)
        requires
            forall|c: &C, name: u32, value: u32| call_requires(attr_set, (c, name, value)),
        ensures
            *final(self) == *old(self),
            exists|rc: i32|
                #![trigger call_ensures(attr_set, (&old(self).context(), attr_number(attribute_name(attr)), attribute_value(attr)), rc)]
                call_ensures(
                    attr_set,
                    (&old(self).context(), attr_number(attribute_name(attr)), attribute_value(attr)),
                    rc,
                ) && r == attribute_answer(attr, rc),
    {
        let rc = attr_set(&self.ctx, attr.name().number(), attr.value());
        if rc == 0 {
            Ok(())
        } else {
            Err(Error::SetAttribute(attr, errno(rc)))
        }
    }

    /// Add a rule, given `rule_add`, which adds to the context a rule
    /// (`seccomp_rule_add`, without argument conditions) for an action code and
    /// a syscall number, and gives libseccomp's answer. Complex rules are not
    /// supported.
    ///
    /// ## Errors
    /// `Error::AddRule`: if libseccomp answers other than 0.
    pub fn add_rule(&mut self, action: Action, syscall: Syscall, rule_add: impl FnOnce(&C, u32, i32) -> i32) -> (r: Result<(), Error>)
        requires
            forall|c: &C, code: u32, nr: i32| call_requires(rule_add, (c, code, nr)),
        ensures
            *final(self) == *old(self),
            exists|rc: i32|
                #![trigger call_ensures(rule_add, (&old(self).context(), action_code(action), syscall@), rc)]
                call_ensures(rule_add, (&old(self).context(), action_code(action), syscall@), rc)
                    && r == rule_answer(action, syscall, rc),
    {
        let rc = rule_add(&self.ctx, action.code(), syscall.get_number());
        if rc == 0 {
            Ok(())
        } else {
            Err(Error::AddRule(action, syscall, errno(rc)))
        }
    }

    /// Write the filter in BPF format, given `export`, which exports the
    /// context (`seccomp_export_bpf`) to the file being written and gives
    /// libseccomp's answer.
    ///
    /// ## Errors
    /// `Error::Export`: if libseccomp answers other than 0.
    pub fn write(&self, export: impl FnOnce(&C) -> i32) -> (r: Result<(), Error>)
        requires
            forall|c: &C| call_requires(export, (c,)),
        ensures
            exists|rc: i32|
                #![trigger call_ensures(export, (&self.context(),), rc)]
                call_ensures(export, (&self.context(),), rc) && r == export_answer(rc),
    {
        let rc = export(&self.ctx);
        assert(call_ensures(export, (&self.context(),), rc));
        if rc == 0 {
            Ok(())
        } else {
            Err(Error::Export(errno(rc)))
        }
    }

    /// The notifier, if one is set.
    pub fn notifier_ref(&self) -> (n: Option<&N>)
        ensures
            match n {
                Some(x) => self.notifier() == Some(*x),
                None => self.notifier() is None,
            },
    {
        match &self.notifier {
            Some(x) => Some(x),
            None => None,
        }
    }

    /// Take the notifier out of the filter, to be set again with
    /// `set_notifier`.
    pub fn take_notifier(&mut self) -> (n: Option<N>)
        ensures
            n == old(self).notifier(),
            final(self).notifier() is None,
            final(self).context() == old(self).context(),
    {
        self.notifier.take()
    }

    /// Execute the notifier's setup. This is necessary to call before
    /// calling `load()`. Without a notifier the setup is over at once, with
    /// nothing to do; otherwise the notifier is asked for the rules it needs
    /// exempted, and a `Setup` started with them leads through the rest.
    pub fn setup(&self) -> (step: SetupStep)
        ensures
            step == first_step(self.notifier() is Some),
    {
        match &self.notifier {
            None => SetupStep::Done(Ok(())),
            Some(_) => SetupStep::Exempt,
        }
    }

    /// Loads the policy into the current process, given `seccomp_load`,
    /// which loads the context (`seccomp_load`) and gives libseccomp's
    /// answer. The policy is loaded whether or not a notifier is set. Once it
    /// is, the filter gives up its context and its notifier, if one is set,
    /// which is then to be handed the context's notify FD.
    ///
    /// ## Panics
    /// Loading fails when libseccomp answers other than 0; `seccomp_load`
    /// is then to panic, with the message of `load_failure`, rather than
    /// answer, so that the notifier is never handed the FD of a filter that
    /// is not in force.
    pub fn load(self, seccomp_load: impl FnOnce(&C) -> i32) -> (r: (C, Option<N>))
        requires
            forall|c: &C| call_requires(seccomp_load, (c,)),
            forall|c: &C, rc: i32| call_ensures(seccomp_load, (c,), rc) ==> rc == 0,
        ensures
            call_ensures(seccomp_load, (&self.context(),), 0i32),
            r == (self.context(), self.notifier()),
    {
        let rc = seccomp_load(&self.ctx);
        assert(call_ensures(seccomp_load, (&self.context(),), rc));
        (self.ctx, self.notifier)
    }
}

/// The message a failed load panics with: `Failed to set filter: ` and
/// libseccomp's answer.
pub open spec fn load_failure_message(rc: i32) -> Seq<char> {
    "Failed to set filter: "@ + decimal(rc as int)
}

/// Decide on libseccomp's answer to loading a filter: 0 means the policy is
/// in force; any other answer is a failure, on which loading is to panic with
/// the message given here.
pub fn load_failure(rc: i32) -> (r: Option<String>)
    ensures
        rc == 0 <==> r is None,
        r matches Some(message) ==> message@ == load_failure_message(rc),
{
    if rc == 0 {
        None
    } else {
        let mut message = String::from_str("Failed to set filter: ");
        message.append(decimal_string(rc).as_str());
        Some(message)
    }
}

/// A call the filter makes of its notifier.
pub enum NotifierCall {
    /// Asked for the rules it needs exempted.
    Exempt,
    /// Asked to prepare.
    Prepare,
    /// Handed the notify FD.
    Handle,
}

/// The first step of a setup: asking for the exempted rules when a notifier
/// is set, or nothing at all.
pub open spec fn first_step(notifier_set: bool) -> SetupStep {
    if notifier_set {
        SetupStep::Exempt
    } else {
        SetupStep::Done(Ok(()))
    }
}

/// The steps a setup goes through from the rule at `from` on, as
/// `Setup::new` and `Setup::rule_added` give them, when libseccomp refuses the
/// rule at `refused` with `e` (or no rule, when `refused` is past the last):
/// each rule in turn, then preparing, unless a refusal ends the setup.
pub open spec fn setup_run(
    rules: Seq<(Action, Syscall)>,
    from: int,
    refused: int,
    e: Error,
) -> Seq<SetupStep>
    decreases rules.len() - from,
{
    if 0 <= from < rules.len() {
        seq![step_after(rules, from)] + if from == refused {
            seq![SetupStep::Done(Err(e))]
        } else {
            setup_run(rules, from + 1, refused, e)
        }
    } else {
        seq![step_after(rules, from)]
    }
}

/// The call on the notifier that a step asks for, if any.
pub open spec fn notifier_call(step: SetupStep) -> Seq<NotifierCall> {
    match step {
        SetupStep::Exempt => seq![NotifierCall::Exempt],
        SetupStep::Prepare => seq![NotifierCall::Prepare],
        _ => Seq::empty(),
    }
}

/// The calls on the notifier that a run of steps asks for, in order.
pub open spec fn notifier_calls(steps: Seq<SetupStep>) -> Seq<NotifierCall>
    decreases steps.len(),
{
    if steps.len() == 0 {
        Seq::empty()
    } else {
        notifier_call(steps[0]) + notifier_calls(steps.drop_first())
    }
}

/// The rule that a step asks to add, if any.
pub open spec fn added_rule(step: SetupStep) -> Seq<(Action, Syscall)> {
    match step {
        SetupStep::AddRule(action, syscall) => seq![(action, syscall)],
        _ => Seq::empty(),
    }
}

/// The rules that a run of steps asks to add, in order.
pub open spec fn added_rules(steps: Seq<SetupStep>) -> Seq<(Action, Syscall)>
    decreases steps.len(),
{
    if steps.len() == 0 {
        Seq::empty()
    } else {
        added_rule(steps[0]) + added_rules(steps.drop_first())
    }
}

proof fn lemma_run_from(rules: Seq<(Action, Syscall)>, from: int, refused: int, e: Error)
    requires
        0 <= from <= rules.len(),
    ensures
        refused < from || refused >= rules.len() ==> {
            &&& notifier_calls(setup_run(rules, from, refused, e)) == seq![NotifierCall::Prepare]
            &&& added_rules(setup_run(rules, from, refused, e)) == rules.subrange(from, rules.len() as int)
            &&& setup_run(rules, from, refused, e).last() == SetupStep::Prepare
        },
        from <= refused < rules.len() ==> {
            &&& notifier_calls(setup_run(rules, from, refused, e)) == Seq::<NotifierCall>::empty()
            &&& added_rules(setup_run(rules, from, refused, e)) == rules.subrange(from, refused + 1)
            &&& setup_run(rules, from, refused, e).last() == SetupStep::Done(Err(e))
        },
    decreases rules.len() - from,
{
    let run = setup_run(rules, from, refused, e);
    if from < rules.len() {
        let head = seq![step_after(rules, from)];
        let tail = if from == refused {
            seq![SetupStep::Done(Err(e))]
        } else {
            setup_run(rules, from + 1, refused, e)
        };
        assert(run == head + tail);
        assert(run.drop_first() =~= tail);
        assert(run[0] == step_after(rules, from));
        if from == refused {
            assert(tail.drop_first() =~= Seq::<SetupStep>::empty());
            assert(notifier_calls(tail.drop_first()) =~= Seq::<NotifierCall>::empty());
            assert(added_rules(tail.drop_first()) =~= Seq::<(Action, Syscall)>::empty());
            assert(notifier_calls(tail) =~= Seq::<NotifierCall>::empty());
            assert(added_rules(tail) =~= Seq::<(Action, Syscall)>::empty());
            assert(notifier_calls(run) =~= Seq::<NotifierCall>::empty());
            assert(added_rules(run) =~= rules.subrange(from, refused + 1));
        } else {
            lemma_run_from(rules, from + 1, refused, e);
            assert(notifier_calls(run) =~= notifier_calls(tail));
            assert(added_rules(run) =~= seq![rules[from]] + added_rules(tail));
            assert(rules.subrange(from, rules.len() as int) =~= seq![rules[from]]
                + rules.subrange(from + 1, rules.len() as int));
            if from < refused < rules.len() {
                assert(rules.subrange(from, refused + 1) =~= seq![rules[from]]
                    + rules.subrange(from + 1, refused + 1));
            }
        }
    } else {
        assert(run == seq![SetupStep::Prepare]);
        assert(run.drop_first() =~= Seq::<SetupStep>::empty());
        assert(notifier_calls(run.drop_first()) =~= Seq::<NotifierCall>::empty());
        assert(added_rules(run.drop_first()) =~= Seq::<(Action, Syscall)>::empty());
        assert(notifier_calls(run) =~= seq![NotifierCall::Prepare]);
        assert(added_rules(run) =~= Seq::<(Action, Syscall)>::empty());
    }
}

/// With a notifier set, a setup followed by a load calls the notifier in
/// this order: it is asked for its exempted rules first (`Filter::setup`);
/// every rule it gave is then added once, in its order, and only after all
/// are in is it asked to prepare (`Setup::new`, `Setup::rule_added`); the
/// load gives it up, to be handed the notify FD, only once `seccomp_load`
/// answered 0 (`Filter::load`). When libseccomp refuses the rule at
/// `refused`, the rules up to it are added, none after it, and the notifier
/// is asked nothing more.
pub proof fn lemma_notifier_order(rules: Seq<(Action, Syscall)>, refused: int, e: Error)
    ensures
        ({
            let run = seq![first_step(true)] + setup_run(rules, 0, refused, e);
            &&& refused < 0 || refused >= rules.len() ==> {
                &&& notifier_calls(run) + seq![NotifierCall::Handle] == seq![
                    NotifierCall::Exempt,
                    NotifierCall::Prepare,
                    NotifierCall::Handle,
                ]
                &&& added_rules(run) == rules
                &&& run.last() == SetupStep::Prepare
            }
            &&& 0 <= refused < rules.len() ==> {
                &&& notifier_calls(run) == seq![NotifierCall::Exempt]
                &&& added_rules(run) == rules.subrange(0, refused + 1)
                &&& run.last() == SetupStep::Done(Err(e))
            }
        }),
{
    let run = seq![first_step(true)] + setup_run(rules, 0, refused, e);
    lemma_run_from(rules, 0, refused, e);
    let tail = setup_run(rules, 0, refused, e);
    assert(run.drop_first() =~= tail);
    assert(run[0] == SetupStep::Exempt);
    assert(notifier_calls(run) =~= seq![NotifierCall::Exempt] + notifier_calls(tail));
    assert(added_rules(run) =~= added_rules(tail));
    assert(rules.subrange(0, rules.len() as int) =~= rules);
    assert(run.last() == tail.last());
}

/// Every libseccomp operation succeeds exactly when libseccomp answers 0:
/// any other answer, negative errnos among them, is a failure that carries
/// the operation's own inputs and the errno nix names for the answer.
pub proof fn lemma_only_zero_succeeds(attr: Attribute, action: Action, syscall: Syscall, rc: i32)
    ensures
        attribute_answer(attr, rc) is Ok <==> rc == 0,
        rule_answer(action, syscall, rc) is Ok <==> rc == 0,
        export_answer(rc) is Ok <==> rc == 0,
        rc != 0 ==> attribute_answer(attr, rc) == Err::<(), Error>(
            Error::SetAttribute(attr, errno_from_raw(rc)),
        ),
        rc != 0 ==> rule_answer(action, syscall, rc) == Err::<(), Error>(
            Error::AddRule(action, syscall, errno_from_raw(rc)),
        ),
        rc != 0 ==> export_answer(rc) == Err::<(), Error>(Error::Export(errno_from_raw(rc))),
{
}

/// A setup's preparation succeeds exactly when the notifier prepares, and a
/// failure carries the notifier's own message.
pub proof fn lemma_prepare_answer(res: Result<(), String>)
    ensures
        prepare_answer(res) is Ok <==> res is Ok,
        res matches Err(m) ==> prepare_answer(res) == Err::<(), Error>(Error::Prepare(m)),
{
}

/// A load fails exactly on a nonzero answer, and its message names the
/// answer after the text `Failed to set filter: `.
pub proof fn lemma_load_failure_message(rc: i32)
    ensures
        load_failure_message(rc).subrange(0, 22) == "Failed to set filter: "@,
        load_failure_message(rc).subrange(22, load_failure_message(rc).len() as int)
            == decimal(rc as int),
{
    reveal_strlit("Failed to set filter: ");
    let m = load_failure_message(rc);
    assert(m.subrange(0, 22) =~= "Failed to set filter: "@);
    assert(m.subrange(22, m.len() as int) =~= decimal(rc as int));
}

} // verus!

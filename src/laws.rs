use vstd::prelude::*;
use crate::plugin::{Plugin, PLUGIN_COUNT, registration_order};
use crate::lifecycle::{
    Action, BootstrapView, Event, Phase, after, answered, answers, initial_view,
    next_action_spec, on_event_spec, performed, progress, startup_script, view_wf,
};

verus! {

proof fn lemma_step(s: BootstrapView, e: Event)
    requires
        view_wf(s),
    ensures
        view_wf(on_event_spec(s, e)),
        answers(next_action_spec(s), e) ==> {
            &&& progress(s) < startup_script().len()
            &&& next_action_spec(s) == startup_script()[progress(s) as int]
            &&& progress(on_event_spec(s, e)) == progress(s) + 1
        },
        !answers(next_action_spec(s), e) ==> on_event_spec(s, e) == s,
{
    let a = next_action_spec(s);
    let t = on_event_spec(s, e);
    if answers(a, e) {
        if s.phase == Phase::Composing && s.attached.len() < PLUGIN_COUNT {
            assert(t.attached =~= registration_order().take(s.attached.len() as int + 1));
        }
    }
}

proof fn lemma_trace(s: BootstrapView, es: Seq<Event>)
    requires
        view_wf(s),
    ensures
        view_wf(after(s, es)),
        progress(s) + performed(s, es).len() <= startup_script().len(),
        progress(after(s, es)) == progress(s) + performed(s, es).len(),
        forall|i: int|
            0 <= i < performed(s, es).len() ==> performed(s, es)[i] == startup_script()[progress(s)
                + i],
    decreases es.len(),
{
    if es.len() > 0 {
        let t = on_event_spec(s, es[0]);
        lemma_step(s, es[0]);
        lemma_trace(t, es.drop_first());
    }
}

proof fn lemma_initial()
    ensures
        view_wf(initial_view()),
        progress(initial_view()) == 0,
{
    assert(registration_order().take(0) =~= Seq::<Plugin>::empty());
}

/// Whatever events a driver reports, the actions carried out from the start
/// run through the startup script in order: plugins are attached in the
/// fixed order, never out of turn, and the launch comes only after all of them.
pub proof fn lemma_performed_follows_script(es: Seq<Event>)
    ensures
        performed(initial_view(), es).len() <= startup_script().len(),
        performed(initial_view(), es) == startup_script().take(
            performed(initial_view(), es).len() as int,
        ),
{
    lemma_initial();
    lemma_trace(initial_view(), es);
    assert(performed(initial_view(), es) =~= startup_script().take(
        performed(initial_view(), es).len() as int,
    ));
}

proof fn lemma_answered_performs_all(s: BootstrapView, es: Seq<Event>)
    requires
        answered(s, es),
    ensures
        performed(s, es).len() == es.len(),
    decreases es.len(),
{
    if es.len() > 0 {
        lemma_answered_performs_all(on_event_spec(s, es[0]), es.drop_first());
    }
}

/// Plugins are attached only in the fixed order: the i-th attachment carried
/// out is the i-th plugin of the order, and the plugins attached at any time
/// are a prefix of it.
pub proof fn lemma_attach_order(es: Seq<Event>)
    ensures
        forall|i: int, p: Plugin|
            0 <= i < performed(initial_view(), es).len() && performed(initial_view(), es)[i]
                == Action::Attach(p) ==> i < registration_order().len() && p
                == registration_order()[i],
        after(initial_view(), es).attached == registration_order().take(
            after(initial_view(), es).attached.len() as int,
        ),
{
    lemma_initial();
    lemma_trace(initial_view(), es);
}

/// No plugin is skipped: the launch is carried out only as the sixth action,
/// after all five plugins were attached in order, and a state past the launch
/// has every plugin attached.
pub proof fn lemma_launch_after_every_plugin(es: Seq<Event>)
    ensures
        forall|i: int|
            0 <= i < performed(initial_view(), es).len() && performed(initial_view(), es)[i]
                == Action::Launch ==> i == PLUGIN_COUNT && forall|k: int|
                0 <= k < PLUGIN_COUNT ==> performed(initial_view(), es)[k] == Action::Attach(
                    registration_order()[k],
                ),
        after(initial_view(), es).phase != Phase::Composing ==> after(initial_view(), es).attached
            == registration_order(),
{
    lemma_initial();
    lemma_trace(initial_view(), es);
    let t = after(initial_view(), es);
    if t.phase != Phase::Composing {
        assert(registration_order().take(PLUGIN_COUNT as int) =~= registration_order());
    }
}

/// The builder is launched exactly once: no two actions carried out are
/// launches, the application is past its launch exactly when a launch was
/// carried out, and a driver that does what it is asked launches with its
/// sixth report.
pub proof fn lemma_single_launch(es: Seq<Event>)
    ensures
        forall|i: int, j: int|
            0 <= i < performed(initial_view(), es).len() && 0 <= j < performed(
                initial_view(),
                es,
            ).len() && performed(initial_view(), es)[i] == Action::Launch && performed(
                initial_view(),
                es,
            )[j] == Action::Launch ==> i == j,
        after(initial_view(), es).phase != Phase::Composing <==> performed(
            initial_view(),
            es,
        ).contains(Action::Launch),
        answered(initial_view(), es) && es.len() == PLUGIN_COUNT + 1 ==> performed(
            initial_view(),
            es,
        )[PLUGIN_COUNT as int] == Action::Launch,
{
    lemma_initial();
    lemma_trace(initial_view(), es);
    let ps = performed(initial_view(), es);
    if ps.contains(Action::Launch) {
        let i = choose|i: int| 0 <= i < ps.len() && ps[i] == Action::Launch;
        assert(ps[i] == startup_script()[i]);
    }
    if after(initial_view(), es).phase != Phase::Composing {
        assert(ps[PLUGIN_COUNT as int] == Action::Launch);
    }
    if answered(initial_view(), es) {
        lemma_answered_performs_all(initial_view(), es);
    }
}

/// A failed launch is final: the state asks for the process to end, no later
/// report changes it, and no action is carried out after it.
pub proof fn lemma_failure_is_terminal(s: BootstrapView, es: Seq<Event>)
    requires
        view_wf(s),
        next_action_spec(s) == Action::Launch,
    ensures
        on_event_spec(s, Event::LaunchFailed).phase == Phase::Terminated,
        next_action_spec(on_event_spec(s, Event::LaunchFailed)) == Action::Abort,
        after(on_event_spec(s, Event::LaunchFailed), es) == on_event_spec(s, Event::LaunchFailed),
        performed(on_event_spec(s, Event::LaunchFailed), es).len() == 0,
    decreases es.len(),
{
    let t = on_event_spec(s, Event::LaunchFailed);
    if es.len() > 0 {
        assert(on_event_spec(t, es[0]) == t);
        lemma_failure_is_terminal(s, es.drop_first());
    }
}

} // verus!

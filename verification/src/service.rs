//! The text service's bookkeeping: activation and deactivation, the key
//! event round trip (test, then apply), and focus changes.
//!
//! TSF first asks whether a key will be eaten (`OnTestKeyDown`); the engine
//! handles the key then and its result is kept. When TSF then delivers the
//! key (`OnKeyDown`), the kept result decides what is applied.
//!
//! The thread manager and the composition are carried as opaque values of
//! the types `M` and `C`.

use vstd::prelude::*;
use crate::bridge::{
    copy_learned, key_event_for_vk, learned_by, learned_view, EngineBridge, LearnedConversion,
};
use crate::engine::{
    actions_view, cleared, initial_engine, spec_process_key, ActionView, EngineAction,
    EngineResult, EngineView, KeyEvent, KeybindingProfile, ResultView,
};

verus! {

/// The cookie value that stands for "no sink advised".
pub const TF_INVALID_COOKIE: u32 = 0xffffffff;

/// The state of the text service.
pub struct TextServiceState<M, C> {
    pub thread_mgr: Option<M>,
    pub client_id: u32,
    pub engine: EngineBridge,
    pub composition: Option<C>,
    /// Cookie of the advised thread-manager event sink.
    pub thread_mgr_sink_cookie: u32,
    /// Whether the key event sink is advised.
    pub keystroke_mgr_cookie: bool,
    /// The engine's result for the key last tested, until the key is delivered.
    pub cached_result: Option<EngineResult>,
}

/// The model of an optional engine result.
pub open spec fn cached_view(r: Option<EngineResult>) -> Option<ResultView> {
    match r {
        Some(x) => Some(x@),
        None => None,
    }
}

/// What deactivation undoes: the learning to save, the sinks to unadvise
/// (through the thread manager handed back) and the composition to end.
pub struct Deactivation<M, C> {
    /// The conversions learned so far, to be written out first.
    pub save_learning: Vec<LearnedConversion>,
    pub thread_mgr: Option<M>,
    /// The client id whose key event sink is unadvised.
    pub unadvise_key_sink: Option<u32>,
    /// The cookie of the thread-manager event sink to unadvise.
    pub unadvise_thread_mgr_sink: Option<u32>,
    pub end_composition: Option<C>,
}

/// The model of a [`Deactivation`]: whether a thread manager and a
/// composition are handed back, and the plain values.
pub struct DeactivationView {
    pub save_learning: Seq<(Seq<char>, Seq<char>)>,
    pub returns_thread_mgr: bool,
    pub unadvise_key_sink: Option<u32>,
    pub unadvise_thread_mgr_sink: Option<u32>,
    pub ends_composition: bool,
}

impl<M, C> View for Deactivation<M, C> {
    type V = DeactivationView;

    open spec fn view(&self) -> DeactivationView {
        DeactivationView {
            save_learning: learned_view(self.save_learning@),
            returns_thread_mgr: self.thread_mgr is Some,
            unadvise_key_sink: self.unadvise_key_sink,
            unadvise_thread_mgr_sink: self.unadvise_thread_mgr_sink,
            ends_composition: self.end_composition is Some,
        }
    }
}

/// The model of the text service's state. The thread manager and the
/// composition are opaque: the model records whether there is one.
pub struct ServiceView {
    pub has_thread_mgr: bool,
    pub client_id: u32,
    pub engine: EngineView,
    pub learned: Seq<(Seq<char>, Seq<char>)>,
    pub has_composition: bool,
    pub thread_mgr_sink_cookie: u32,
    pub key_sink_advised: bool,
    pub cached: Option<ResultView>,
}

impl<M, C> View for TextServiceState<M, C> {
    type V = ServiceView;

    open spec fn view(&self) -> ServiceView {
        ServiceView {
            has_thread_mgr: self.thread_mgr is Some,
            client_id: self.client_id,
            engine: self.engine@,
            learned: learned_view(self.engine.learned@),
            has_composition: self.composition is Some,
            thread_mgr_sink_cookie: self.thread_mgr_sink_cookie,
            key_sink_advised: self.keystroke_mgr_cookie,
            cached: cached_view(self.cached_result),
        }
    }
}

/// A service that is not activated, with a fresh engine of the given key
/// bindings that has learned nothing.
pub open spec fn fresh_service(profile: KeybindingProfile) -> ServiceView {
    ServiceView {
        has_thread_mgr: false,
        client_id: 0,
        engine: initial_engine(profile),
        learned: Seq::empty(),
        has_composition: false,
        thread_mgr_sink_cookie: TF_INVALID_COOKIE,
        key_sink_advised: false,
        cached: None,
    }
}

/// Activation starts: the thread manager and the client id are kept.
pub open spec fn begun_activation(s: ServiceView, client_id: u32) -> ServiceView {
    ServiceView { has_thread_mgr: true, client_id, ..s }
}

/// The service with the learning restored to `saved`.
pub open spec fn with_learning(s: ServiceView, saved: Seq<(Seq<char>, Seq<char>)>) -> ServiceView {
    ServiceView { learned: saved, ..s }
}

/// The key event sink was advised.
pub open spec fn with_key_sink(s: ServiceView) -> ServiceView {
    ServiceView { key_sink_advised: true, ..s }
}

/// The thread-manager event sink was advised under `cookie`.
pub open spec fn with_thread_mgr_sink(s: ServiceView, cookie: u32) -> ServiceView {
    ServiceView { thread_mgr_sink_cookie: cookie, ..s }
}

/// The service after deactivation: no thread manager, client id or sinks, no
/// composition, and an engine without a composition in the same mode; what
/// was learned stays.
pub open spec fn deactivated(s: ServiceView) -> ServiceView {
    ServiceView {
        has_thread_mgr: false,
        client_id: 0,
        engine: cleared(s.engine, s.engine.mode),
        has_composition: false,
        thread_mgr_sink_cookie: TF_INVALID_COOKIE,
        key_sink_advised: false,
        ..s
    }
}

/// The service after an edit session left it with a composition or without
/// one.
pub open spec fn with_composition(s: ServiceView, has_composition: bool) -> ServiceView {
    ServiceView { has_composition, ..s }
}

/// The service after the application ended the composition: it is
/// forgotten and the engine drops its composition in the same mode.
pub open spec fn composition_ended(s: ServiceView) -> ServiceView {
    ServiceView { has_composition: false, engine: cleared(s.engine, s.engine.mode), ..s }
}

/// What deactivating `s` undoes: everything learned is saved, the advised
/// sinks are unadvised through the thread manager, and the composition ends.
pub open spec fn deactivation_plan(s: ServiceView) -> DeactivationView {
    DeactivationView {
        save_learning: s.learned,
        returns_thread_mgr: s.has_thread_mgr,
        unadvise_key_sink: key_sink_to_unadvise(s.has_thread_mgr, s.key_sink_advised, s.client_id),
        unadvise_thread_mgr_sink: thread_mgr_sink_to_unadvise(
            s.has_thread_mgr,
            s.thread_mgr_sink_cookie,
        ),
        ends_composition: s.has_composition,
    }
}

/// The service after TSF tested key `k`: the engine handled it, learned what
/// it committed, and its result is kept.
pub open spec fn tested_key(s: ServiceView, k: KeyEvent) -> ServiceView {
    let (e2, r) = spec_process_key(s.engine, k);
    ServiceView {
        engine: e2,
        learned: s.learned + learned_by(s.engine, e2),
        cached: Some(r),
        ..s
    }
}

/// The service after a key was delivered: the kept result is gone.
pub open spec fn delivered_key(s: ServiceView) -> ServiceView {
    ServiceView { cached: None, ..s }
}

/// The service after focus moved: the engine drops its composition and the
/// kept result is forgotten.
pub open spec fn refocused(s: ServiceView) -> ServiceView {
    ServiceView { engine: cleared(s.engine, s.engine.mode), cached: None, ..s }
}

/// The key event sink to unadvise at deactivation: the client's, when it was
/// advised and there is a thread manager to unadvise it through.
pub open spec fn key_sink_to_unadvise(has_thread_mgr: bool, advised: bool, client_id: u32) -> Option<u32> {
    if advised && has_thread_mgr {
        Some(client_id)
    } else {
        None
    }
}

/// The thread-manager event sink to unadvise at deactivation: the one with
/// `cookie`, when there is one and a thread manager to unadvise it through.
pub open spec fn thread_mgr_sink_to_unadvise(has_thread_mgr: bool, cookie: u32) -> Option<u32> {
    if cookie != TF_INVALID_COOKIE && has_thread_mgr {
        Some(cookie)
    } else {
        None
    }
}

/// What the delivered key leads to: whether it is eaten, and the actions to
/// apply to the document (reported as eaten once they are applied).
pub struct KeyDown {
    pub eaten: bool,
    pub apply: Option<Vec<EngineAction>>,
}

/// The model of a [`KeyDown`].
pub struct KeyDownView {
    pub eaten: bool,
    pub apply: Option<Seq<ActionView>>,
}

impl View for KeyDown {
    type V = KeyDownView;

    open spec fn view(&self) -> KeyDownView {
        KeyDownView {
            eaten: self.eaten,
            apply: match self.apply {
                Some(a) => Some(actions_view(a@)),
                None => None,
            },
        }
    }
}

/// The delivered key, given the result kept from testing it and whether
/// there is a document context: a used key with actions is applied (when
/// there is a context) and eaten; otherwise it is eaten exactly when the
/// engine used it. Without a kept result the key is not eaten.
pub open spec fn spec_key_down(cached: Option<ResultView>, has_context: bool) -> KeyDownView {
    match cached {
        Some(r) => if r.consumed && r.actions.len() > 0 && has_context {
            KeyDownView { eaten: true, apply: Some(r.actions) }
        } else {
            KeyDownView { eaten: r.consumed, apply: None }
        },
        None => KeyDownView { eaten: false, apply: None },
    }
}

impl<M, C> TextServiceState<M, C> {
    /// A service that is not activated, with a fresh engine with the default
    /// key bindings.
    pub fn new() -> (s: Self)
        ensures
            s@ == fresh_service(KeybindingProfile::Default),
    {
        Self::with_profile(KeybindingProfile::Default)
    }

    /// A service that is not activated, with a fresh engine with the given
    /// key bindings.
    pub fn with_profile(profile: KeybindingProfile) -> (s: Self)
        ensures
            s@ == fresh_service(profile),
    {
        let engine = EngineBridge::with_profile(profile);
        assert(learned_view(engine.learned@) =~= Seq::empty());
        TextServiceState {
            thread_mgr: None,
            client_id: 0,
            engine,
            composition: None,
            thread_mgr_sink_cookie: TF_INVALID_COOKIE,
            keystroke_mgr_cookie: false,
            cached_result: None,
        }
    }

    /// Activation starts: the thread manager and client id are kept.
    pub fn begin_activation(&mut self, thread_mgr: M, client_id: u32)
        ensures
            final(self)@ == begun_activation(old(self)@, client_id),
            final(self).thread_mgr == Some(thread_mgr),
            final(self).composition == old(self).composition,
    {
        self.thread_mgr = Some(thread_mgr);
        self.client_id = client_id;
    }

    /// The conversions learned in earlier sessions are taken back, as they
    /// were saved.
    pub fn restore_learning(&mut self, saved: Vec<LearnedConversion>)
        ensures
            final(self)@ == with_learning(old(self)@, learned_view(saved@)),
            final(self).thread_mgr == old(self).thread_mgr,
            final(self).composition == old(self).composition,
    {
        self.engine.restore_learning(saved);
    }

    /// The key event sink was advised.
    pub fn key_sink_advised(&mut self)
        ensures
            final(self)@ == with_key_sink(old(self)@),
            final(self).thread_mgr == old(self).thread_mgr,
            final(self).composition == old(self).composition,
    {
        self.keystroke_mgr_cookie = true;
    }

    /// The thread-manager event sink was advised under `cookie`.
    pub fn thread_mgr_sink_advised(&mut self, cookie: u32)
        ensures
            final(self)@ == with_thread_mgr_sink(old(self)@, cookie),
            final(self).thread_mgr == old(self).thread_mgr,
            final(self).composition == old(self).composition,
    {
        self.thread_mgr_sink_cookie = cookie;
    }

    /// Deactivation: the conversions learned so far are handed out to be
    /// saved, the sinks that were advised are unadvised through the thread
    /// manager (if there is one), the composition is ended, the engine drops
    /// its composition, and the service forgets the thread manager, the
    /// client id and the sinks.
    pub fn deactivate(&mut self) -> (d: Deactivation<M, C>)
        ensures
            d@ == deactivation_plan(old(self)@),
            final(self)@ == deactivated(old(self)@),
            d.thread_mgr == old(self).thread_mgr,
            d.end_composition == old(self).composition,
    {
        let save_learning = copy_learned(&self.engine.learned);
        let has_mgr = self.thread_mgr.is_some();
        let unadvise_key_sink = if self.keystroke_mgr_cookie && has_mgr {
            Some(self.client_id)
        } else {
            None
        };
        self.keystroke_mgr_cookie = false;
        let unadvise_thread_mgr_sink = if self.thread_mgr_sink_cookie != TF_INVALID_COOKIE && has_mgr {
            Some(self.thread_mgr_sink_cookie)
        } else {
            None
        };
        self.thread_mgr_sink_cookie = TF_INVALID_COOKIE;
        let end_composition = self.composition.take();
        self.engine.reset();
        let thread_mgr = self.thread_mgr.take();
        self.client_id = 0;
        Deactivation {
            save_learning,
            thread_mgr,
            unadvise_key_sink,
            unadvise_thread_mgr_sink,
            end_composition,
        }
    }

    /// TSF tests a key press: the engine handles it now, the result is kept
    /// for the delivery, and the key is eaten exactly when the engine used it.
    pub fn on_test_key_down(
        &mut self,
        vk: u32,
        unicode: Option<char>,
        shift: bool,
        control: bool,
        alt: bool,
        win: bool,
    ) -> (eaten: bool)
        ensures
            final(self)@ == tested_key(
                old(self)@,
                key_event_for_vk(vk, unicode, shift, control, alt, win, true),
            ),
            eaten == spec_process_key(
                old(self)@.engine,
                key_event_for_vk(vk, unicode, shift, control, alt, win, true),
            ).1.consumed,
            final(self).thread_mgr == old(self).thread_mgr,
            final(self).composition == old(self).composition,
    {
        let result = self.engine.process_key(vk, unicode, shift, control, alt, win, true);
        let consumed = result.consumed;
        self.cached_result = Some(result);
        consumed
    }

    /// TSF delivers the tested key: the kept result is taken and decides.
    pub fn on_key_down(&mut self, has_context: bool) -> (k: KeyDown)
        ensures
            k@ == spec_key_down(old(self)@.cached, has_context),
            final(self)@ == delivered_key(old(self)@),
            final(self).thread_mgr == old(self).thread_mgr,
            final(self).composition == old(self).composition,
    {
        match self.cached_result.take() {
            Some(result) => {
                if result.consumed && result.actions.len() > 0 && has_context {
                    KeyDown { eaten: true, apply: Some(result.actions) }
                } else {
                    KeyDown { eaten: result.consumed, apply: None }
                }
            },
            None => KeyDown { eaten: false, apply: None },
        }
    }

    /// An edit session started, kept or ended the composition.
    pub fn composition_changed(&mut self, composition: Option<C>)
        ensures
            final(self)@ == with_composition(old(self)@, composition is Some),
            final(self).composition == composition,
            final(self).thread_mgr == old(self).thread_mgr,
    {
        self.composition = composition;
    }

    /// The application ended the composition: the service forgets it and the
    /// engine drops what it was composing.
    pub fn on_composition_terminated(&mut self)
        ensures
            final(self)@ == composition_ended(old(self)@),
            final(self).thread_mgr == old(self).thread_mgr,
    {
        self.composition = None;
        self.engine.reset();
    }

    /// Focus moved to another document: the engine drops its composition
    /// and the kept result is forgotten.
    pub fn on_set_focus(&mut self)
        ensures
            final(self)@ == refocused(old(self)@),
            final(self).thread_mgr == old(self).thread_mgr,
            final(self).composition == old(self).composition,
    {
        self.engine.reset();
        self.cached_result = None;
    }
}

/// A delivered key is eaten exactly when the engine used it at the test,
/// whether or not its actions are applied; what is applied is exactly the
/// engine's actions.
pub proof fn lemma_key_down_agrees_with_test(s: ServiceView, k: KeyEvent, has_context: bool)
    ensures
        spec_key_down(tested_key(s, k).cached, has_context).eaten == spec_process_key(
            s.engine,
            k,
        ).1.consumed,
        spec_key_down(tested_key(s, k).cached, has_context).apply matches Some(a) ==> a
            == spec_process_key(s.engine, k).1.actions,
{
}

/// A key delivered without a prior test is not eaten and applies nothing,
/// and a key delivered twice is, the second time, delivered without a test.
pub proof fn lemma_key_down_without_test(s: ServiceView, has_context: bool)
    ensures
        !spec_key_down(fresh_service(s.engine.profile).cached, has_context).eaten,
        !spec_key_down(delivered_key(s).cached, has_context).eaten,
        spec_key_down(delivered_key(s).cached, has_context).apply is None,
{
}

/// A key the engine did not use is never eaten and never applies anything.
pub proof fn lemma_unused_key_not_eaten(s: ServiceView, k: KeyEvent, has_context: bool)
    requires
        !spec_process_key(s.engine, k).1.consumed,
    ensures
        !spec_key_down(tested_key(s, k).cached, has_context).eaten,
        spec_key_down(tested_key(s, k).cached, has_context).apply is None,
{
}

/// Deactivating a deactivated service unadvises nothing, ends no
/// composition and changes nothing; it saves the same learning again.
pub proof fn lemma_second_deactivation_is_quiet(s: ServiceView)
    ensures
        deactivation_plan(deactivated(s)).unadvise_key_sink is None,
        deactivation_plan(deactivated(s)).unadvise_thread_mgr_sink is None,
        !deactivation_plan(deactivated(s)).ends_composition,
        !deactivation_plan(deactivated(s)).returns_thread_mgr,
        deactivation_plan(deactivated(s)).save_learning == deactivation_plan(s).save_learning,
        deactivated(deactivated(s)) == deactivated(s),
{
    assert(cleared(cleared(s.engine, s.engine.mode), s.engine.mode) == cleared(s.engine, s.engine.mode));
}

/// After a complete activation (thread manager kept, key sink advised,
/// thread-manager sink advised under a valid cookie), deactivation unadvises
/// both sinks with exactly the client id and cookie of the activation, and
/// leaves the service as deactivating it without the activation would.
pub proof fn lemma_deactivation_undoes_activation(s: ServiceView, client_id: u32, cookie: u32)
    requires
        cookie != TF_INVALID_COOKIE,
    ensures
        deactivation_plan(
            with_thread_mgr_sink(with_key_sink(begun_activation(s, client_id)), cookie),
        ).unadvise_key_sink == Some(client_id),
        deactivation_plan(
            with_thread_mgr_sink(with_key_sink(begun_activation(s, client_id)), cookie),
        ).unadvise_thread_mgr_sink == Some(cookie),
        deactivated(with_thread_mgr_sink(with_key_sink(begun_activation(s, client_id)), cookie))
            == deactivated(s),
{
}

/// Every conversion learned while the service was active is among what the
/// next deactivation saves: testing a key adds what the key taught to the
/// learning, and delivering it or moving focus loses none.
pub proof fn lemma_learning_reaches_deactivation(s: ServiceView, k: KeyEvent)
    ensures
        deactivation_plan(tested_key(s, k)).save_learning == deactivation_plan(s).save_learning
            + learned_by(s.engine, spec_process_key(s.engine, k).0),
        deactivation_plan(delivered_key(s)).save_learning == deactivation_plan(s).save_learning,
        deactivation_plan(refocused(s)).save_learning == deactivation_plan(s).save_learning,
{
}

} // verus!

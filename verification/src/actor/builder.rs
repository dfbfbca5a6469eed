//! How an actor is put together before it is summoned.
use crate::actor::address::{Address, AdrCore, AdrRcv};
use crate::actor::control::Control;
use crate::actor::id_generator::{ids, Id, IdGenerator};
use crate::actor::oneshot_broadcast;
use crate::actor::oneshot_broadcast::{MultiReceiver, UniqueSender};
use crate::actor::{Actor, MailboxSize, TrySendError};
use crate::channel::{bounded_channel, unbounded_channel};
use crate::deferred_span::span_disabled;
use crate::signals::ActorGuard;
use crate::stream_utils::YieldPolicy;
use async_channel::{Receiver, Sender};
use futures_util::stream::FuturesUnordered;
use tracing::Span;
use vstd::prelude::*;

verus! {

/// What can be chosen for an actor.
#[derive(Debug, Clone, Copy)]
pub struct Settings {
    /// How many messages can wait for it.
    pub mailbox_size: MailboxSize,
    /// How often it yields.
    pub yield_policy: YieldPolicy,
}

/// Puts an actor together.
pub struct ActorBuilder {
    thread_root_span: Span,
    settings: Settings,
}

/// An actor that has been put together, with all that it takes to let it live.
///
/// `D` is what its mailbox holds, `J` is a background job, and `G` is what keeps it registered for
/// interrupts.
#[verifier::reject_recursive_types(A)]
#[verifier::reject_recursive_types(D)]
#[verifier::reject_recursive_types(J)]
pub struct RawActor<A: Actor, D, J, G> {
    /// The actor.
    pub actor: A,
    /// Its number.
    pub id: Id,
    /// What goes with it.
    pub ctl: Control<D, A::Error, J>,
    /// Its mailbox.
    pub rcv: AdrRcv<D>,
    /// Its address.
    pub home: Address<D, A::Error>,
    /// The span that it lives in.
    pub span: Span,
    /// How often it yields.
    pub yield_policy: YieldPolicy,
    /// What keeps it registered for interrupts, if it is.
    pub signal_guard: Option<G>,
}

/// These are the two ends of a mailbox of this size.
pub open spec fn mailbox_made<D>(size: MailboxSize, ends: (Sender<D>, Receiver<D>)) -> bool {
    match size {
        MailboxSize::Unbounded => unbounded_channel(ends),
        MailboxSize::Bounded(bound) => exists|capacity: usize|
            capacity == bound@ && #[trigger] bounded_channel(capacity, ends),
    }
}

/// The span of an actor, before the actor has its say: its own root span, or that of the thread if
/// that is disabled.
pub open spec fn base_span(root: Span, thread: Span, base: Span) -> bool {
    if span_disabled(root) {
        cloned(thread, base)
    } else {
        base == root
    }
}

/// The actor lives in this span, which it made from the base span.
pub open spec fn span_made<A, Root: FnOnce(Id, &Span) -> Span, Own: FnOnce(&A, Span) -> Span>(
    actor: A,
    id: Id,
    thread: Span,
    root_span: Root,
    own_span: Own,
    root: Span,
    base: Span,
    span: Span,
) -> bool {
    &&& call_ensures(root_span, (id, &thread), root)
    &&& base_span(root, thread, base)
    &&& call_ensures(own_span, (&actor, base), span)
}

impl ActorBuilder {
    /// What has been chosen.
    pub closed spec fn settings(self) -> Settings {
        self.settings
    }

    /// The span of the thread.
    pub closed spec fn thread(self) -> Span {
        self.thread_root_span
    }

    /// Nothing has been chosen yet.
    pub fn new(thread_root_span: Span) -> (builder: Self)
        ensures
            builder.thread() == thread_root_span,
            builder.settings().mailbox_size matches MailboxSize::Bounded(bound) && bound@ == 16,
            builder.settings().yield_policy matches YieldPolicy::Every(n) && n@ == 8,
    {
        ActorBuilder {
            thread_root_span,
            settings: Settings {
                mailbox_size: MailboxSize::default(),
                yield_policy: YieldPolicy::default(),
            },
        }
    }

    /// A mailbox of the size that was chosen.
    pub fn create_channel<D>(&self) -> (ends: (AdrCore<D>, AdrRcv<D>))
        ensures
            mailbox_made(self.settings().mailbox_size, (ends.0.sender(), ends.1)),
    {
        match self.settings.mailbox_size {
            MailboxSize::Unbounded => AdrCore::unbounded(),
            MailboxSize::Bounded(size) => {
                let capacity: usize = size.get();
                let ends = AdrCore::bounded(capacity);
                assert(bounded_channel(capacity, (ends.0.sender(), ends.1)));
                ends
            },
        }
    }

    /// Where the reason of the exit is announced, and where it comes.
    pub fn create_exit_channel<E: Clone>() -> (ends: (
        UniqueSender<Result<(), E>>,
        MultiReceiver<Result<(), E>>,
    ))
        ensures
            crate::broadcast::broadcast_channel(1, (ends.0.sender(), ends.1.receiver())),
    {
        oneshot_broadcast::create()
    }

    /// Puts an actor together. The root span of the actor, and the span that it makes of that, are
    /// created by these functions; the interrupts are installed by this one, on the new address, if
    /// the actor is to be interrupted.
    pub fn raw<A, D, J, G, I, Install, Root, Own>(
        self,
        into_actor: I,
        idgen: &mut IdGenerator,
        install_signals: Install,
        root_span: Root,
        own_span: Own,
    ) -> (raw: RawActor<A, D, J, G>) where
        A: Actor,
        I: IntoActor<A>,
        Install: FnOnce(&I::Registering, &Address<D, A::Error>) -> G,
        Root: FnOnce(Id, &Span) -> Span,
        Own: FnOnce(&A, Span) -> Span,

        requires
            forall|with: I::Registering, adr: Address<D, A::Error>|
                into_actor.registering() == Some(with) ==> #[trigger] call_requires(
                    install_signals,
                    (&with, &adr),
                ),
            call_requires(root_span, (old(idgen).upcoming(), &self.thread())),
            forall|root: Span, base: Span|
                call_ensures(root_span, (old(idgen).upcoming(), &self.thread()), root)
                    && #[trigger] base_span(root, self.thread(), base) ==> call_requires(
                    own_span,
                    (&into_actor.actor(), base),
                ),
        ensures
            raw.actor == into_actor.actor(),
            raw.id == old(idgen).upcoming(),
            final(idgen).upcoming() == (old(idgen).upcoming() + 1) % ids(),
            raw.yield_policy == into_actor.adjusted(self.settings()).yield_policy,
            mailbox_made(
                into_actor.adjusted(self.settings()).mailbox_size,
                (raw.home.mailbox().sender(), raw.rcv),
            ),
            raw.ctl.exit() is Some,
            crate::broadcast::broadcast_channel(
                1,
                (raw.ctl.exit()->0.sender(), raw.home.status().receiver()),
            ),
            crate::channel::downgraded(
                raw.home.mailbox().sender(),
                raw.ctl.home().mailbox().sender(),
            ),
            cloned(raw.home.status().receiver(), raw.ctl.home().status().receiver()),
            !raw.ctl.draining(),
            call_ensures(FuturesUnordered::<J>::new, (), raw.ctl.jobs()),
            match into_actor.registering() {
                Some(with) => raw.signal_guard matches Some(guard) && call_ensures(
                    install_signals,
                    (&with, &raw.home),
                    guard,
                ),
                None => raw.signal_guard is None,
            },
            exists|root: Span, base: Span| #[trigger]
                span_made(
                    raw.actor,
                    raw.id,
                    self.thread(),
                    root_span,
                    own_span,
                    root,
                    base,
                    raw.span,
                ),
    {
        let mut builder = self;
        into_actor.adjust_builder(&mut builder);
        let (snd, rcv) = builder.create_channel();
        let (exit_snd, exit_rcv) = Self::create_exit_channel();
        let id: Id = idgen.generate();
        let home = Address::new(snd, exit_rcv);
        let signal_guard = match into_actor.registering_ref() {
            Some(with) => Some(install_signals(with, &home)),
            None => None,
        };
        let actor = into_actor.into_actor();
        let root = root_span(id, &builder.thread_root_span);
        let ghost made = root;
        let base = if root.is_disabled() {
            builder.thread_root_span.clone()
        } else {
            root
        };
        let ghost chosen = base;
        assert(base_span(made, self.thread(), chosen));
        let span = own_span(&actor, base);
        let ctl = Control::new(home.downgrade(), exit_snd);
        let raw = RawActor {
            actor,
            id,
            ctl,
            rcv,
            home,
            span,
            yield_policy: builder.settings.yield_policy,
            signal_guard,
        };
        assert(span_made(
            raw.actor,
            raw.id,
            self.thread(),
            root_span,
            own_span,
            made,
            chosen,
            raw.span,
        ));
        raw
    }
}

/// Registers nothing. No value of it is ever made.
pub struct Never {
    _priv: (),
}

/// Something that an actor can be made of: the actor itself, or one with some settings chosen.
pub trait IntoActor<A: Actor>: Sized {
    /// What registers the actor for interrupts.
    type Registering;

    /// The settings that it chooses, in place of these.
    spec fn adjusted(self, settings: Settings) -> Settings;

    /// The actor.
    spec fn actor(self) -> A;

    /// What registers the actor for interrupts, if it is to be interrupted.
    spec fn registering(self) -> Option<Self::Registering>;

    /// Chooses the settings.
    fn adjust_builder(&self, builder: &mut ActorBuilder)
        ensures
            final(builder).settings() == self.adjusted(old(builder).settings()),
            final(builder).thread() == old(builder).thread(),
    ;

    /// What registers the actor for interrupts, if it is to be interrupted.
    fn registering_ref(&self) -> (with: Option<&Self::Registering>)
        ensures
            match with {
                Some(with) => self.registering() == Some(*with),
                None => self.registering() is None,
            },
    ;

    /// The actor.
    fn into_actor(self) -> (actor: A)
        ensures
            actor == self.actor(),
    ;
}

impl<A: Actor> IntoActor<A> for A {
    type Registering = Never;

    open spec fn adjusted(self, settings: Settings) -> Settings {
        settings
    }

    open spec fn actor(self) -> A {
        self
    }

    open spec fn registering(self) -> Option<Never> {
        None
    }

    fn adjust_builder(&self, builder: &mut ActorBuilder) {
    }

    fn registering_ref(&self) -> (with: Option<&Never>) {
        None
    }

    fn into_actor(self) -> (actor: A) {
        self
    }
}

/// Chooses settings for an actor. Only what is chosen last counts.
pub trait IntoActorExt: Sized {
    /// Chooses how many messages can wait for the actor.
    fn mailbox_size(self, mailbox_size: MailboxSize) -> (with: WithMailboxSize<Self>)
        ensures
            with.wrapped() == self,
            with.size() == mailbox_size,
    ;

    /// Chooses how often the actor yields.
    fn yield_policy(self, policy: YieldPolicy) -> (with: WithYieldPolicy<Self>)
        ensures
            with.wrapped() == self,
            with.policy() == policy,
    ;

    /// Has the actor interrupted by the signals of this registry.
    fn interruptable<R>(self, registry: R) -> (with: WithInterruptable<Self, R>)
        ensures
            with.wrapped() == self,
            with.registry() == registry,
    ;
}

impl<I> IntoActorExt for I {
    fn mailbox_size(self, mailbox_size: MailboxSize) -> (with: WithMailboxSize<Self>) {
        WithMailboxSize { wrapped: self, mailbox_size }
    }

    fn yield_policy(self, policy: YieldPolicy) -> (with: WithYieldPolicy<Self>) {
        WithYieldPolicy { wrapped: self, policy }
    }

    fn interruptable<R>(self, registry: R) -> (with: WithInterruptable<Self, R>) {
        WithInterruptable { wrapped: self, registry }
    }
}

/// An actor with a size for its mailbox.
pub struct WithMailboxSize<W> {
    wrapped: W,
    mailbox_size: MailboxSize,
}

impl<W> WithMailboxSize<W> {
    /// What it is made of.
    pub closed spec fn wrapped(self) -> W {
        self.wrapped
    }

    /// How many messages can wait for the actor.
    pub closed spec fn size(self) -> MailboxSize {
        self.mailbox_size
    }
}

impl<A: Actor, W: IntoActor<A>> IntoActor<A> for WithMailboxSize<W> {
    type Registering = Never;

    open spec fn adjusted(self, settings: Settings) -> Settings {
        Settings { mailbox_size: self.size(), ..settings }
    }

    open spec fn actor(self) -> A {
        self.wrapped().actor()
    }

    open spec fn registering(self) -> Option<Never> {
        None
    }

    fn adjust_builder(&self, builder: &mut ActorBuilder) {
        builder.settings.mailbox_size = self.mailbox_size;
    }

    fn registering_ref(&self) -> (with: Option<&Never>) {
        None
    }

    fn into_actor(self) -> (actor: A) {
        self.wrapped.into_actor()
    }
}

/// An actor with a rule for yielding.
pub struct WithYieldPolicy<W> {
    wrapped: W,
    policy: YieldPolicy,
}

impl<W> WithYieldPolicy<W> {
    /// What it is made of.
    pub closed spec fn wrapped(self) -> W {
        self.wrapped
    }

    /// How often the actor yields.
    pub closed spec fn policy(self) -> YieldPolicy {
        self.policy
    }
}

impl<A: Actor, W: IntoActor<A>> IntoActor<A> for WithYieldPolicy<W> {
    type Registering = Never;

    open spec fn adjusted(self, settings: Settings) -> Settings {
        Settings { yield_policy: self.policy(), ..settings }
    }

    open spec fn actor(self) -> A {
        self.wrapped().actor()
    }

    open spec fn registering(self) -> Option<Never> {
        None
    }

    fn adjust_builder(&self, builder: &mut ActorBuilder) {
        builder.settings.yield_policy = self.policy;
    }

    fn registering_ref(&self) -> (with: Option<&Never>) {
        None
    }

    fn into_actor(self) -> (actor: A) {
        self.wrapped.into_actor()
    }
}

/// An actor that is interrupted by signals.
pub struct WithInterruptable<W, R> {
    wrapped: W,
    registry: R,
}

impl<W, R> WithInterruptable<W, R> {
    /// What it is made of.
    pub closed spec fn wrapped(self) -> W {
        self.wrapped
    }

    /// Where the actor is to be registered.
    pub closed spec fn registry(self) -> R {
        self.registry
    }

    /// Where the actor is to be registered.
    pub fn registry_ref(&self) -> (registry: &R)
        ensures
            *registry == self.registry(),
    {
        &self.registry
    }

    /// Registers an actor for interrupts. If the first one has come already, it is put in the
    /// mailbox, which is still empty; what comes of that is given back.
    pub fn install_signals<Register, Preload>(&self, register: Register, preload: Preload) -> (
    installed: (ActorGuard, Option<Result<(), TrySendError>>)) where
        Register: FnOnce(&R) -> ActorGuard,
        Preload: FnOnce() -> Result<(), TrySendError>,

        requires
            call_requires(register, (&self.registry(),)),
            forall|guard: ActorGuard| #[trigger]
                call_ensures(register, (&self.registry(),), guard) && guard.interrupted()
                    ==> call_requires(preload, ()),
        ensures
            call_ensures(register, (&self.registry(),), installed.0),
            match installed.1 {
                Some(preloaded) => installed.0.interrupted() && call_ensures(
                    preload,
                    (),
                    preloaded,
                ),
                None => !installed.0.interrupted(),
            },
    {
        let guard = register(&self.registry);
        if guard.is_interrupted() {
            let preloaded = preload();
            (guard, Some(preloaded))
        } else {
            (guard, None)
        }
    }
}

impl<A: Actor, W: IntoActor<A>, R> IntoActor<A> for WithInterruptable<W, R> {
    type Registering = Self;

    open spec fn adjusted(self, settings: Settings) -> Settings {
        settings
    }

    open spec fn actor(self) -> A {
        self.wrapped().actor()
    }

    open spec fn registering(self) -> Option<Self> {
        Some(self)
    }

    fn adjust_builder(&self, builder: &mut ActorBuilder) {
    }

    fn registering_ref(&self) -> (with: Option<&Self>) {
        Some(self)
    }

    fn into_actor(self) -> (actor: A) {
        self.wrapped.into_actor()
    }
}

/// The mailbox of an actor has room for the very number of messages that was chosen, however many
/// that is, or for any number of them if that was chosen.
pub proof fn law_the_mailbox_has_the_size_chosen<D>(
    size: MailboxSize,
    ends: (Sender<D>, Receiver<D>),
)
    requires
        mailbox_made(size, ends),
    ensures
        match size {
            MailboxSize::Bounded(bound) => exists|capacity: usize|
                capacity == bound@ && #[trigger] call_ensures(
                    async_channel::bounded::<D>,
                    (capacity,),
                    ends,
                ),
            MailboxSize::Unbounded => call_ensures(async_channel::unbounded::<D>, (), ends),
        },
{
    if let MailboxSize::Bounded(bound) = size {
        let capacity = choose|capacity: usize|
            capacity == bound@ && #[trigger] bounded_channel(capacity, ends);
        assert(call_ensures(async_channel::bounded::<D>, (capacity,), ends));
    }
}

/// The base of an actor's span is its root span as long as that is enabled, and that of the thread
/// only if it is not. The actor has its say on that base, and lives in what it says.
pub proof fn law_an_actor_lives_in_its_own_span<
    A,
    Root: FnOnce(Id, &Span) -> Span,
    Own: FnOnce(&A, Span) -> Span,
>(
    actor: A,
    id: Id,
    thread: Span,
    root_span: Root,
    own_span: Own,
    root: Span,
    base: Span,
    span: Span,
)
    requires
        span_made(actor, id, thread, root_span, own_span, root, base, span),
    ensures
        call_ensures(root_span, (id, &thread), root),
        !span_disabled(root) ==> base == root,
        span_disabled(root) ==> cloned(thread, base),
        call_ensures(own_span, (&actor, base), span),
{
}

/// An actor by itself is taken as it is, with what is set for every actor, and is not registered for
/// interrupts.
pub proof fn law_an_actor_is_made_of_itself<A: Actor>(actor: A, settings: Settings)
    ensures
        IntoActor::<A>::adjusted(actor, settings) == settings,
        IntoActor::<A>::actor(actor) == actor,
        IntoActor::<A>::registering(actor) is None,
{
}

/// Only what is chosen last counts: what the wrapped one chose is not looked at, and the actor is
/// the same however many settings are chosen. It is registered for interrupts if and only if that
/// was chosen last.
pub proof fn law_the_last_choice_counts<A: Actor, W: IntoActor<A>, R>(
    size: WithMailboxSize<W>,
    policy: WithYieldPolicy<W>,
    interruptable: WithInterruptable<W, R>,
    settings: Settings,
)
    ensures
        IntoActor::<A>::adjusted(size, settings) == (Settings {
            mailbox_size: size.size(),
            yield_policy: settings.yield_policy,
        }),
        IntoActor::<A>::adjusted(policy, settings) == (Settings {
            mailbox_size: settings.mailbox_size,
            yield_policy: policy.policy(),
        }),
        IntoActor::<A>::adjusted(interruptable, settings) == settings,
        IntoActor::<A>::actor(size) == size.wrapped().actor(),
        IntoActor::<A>::actor(policy) == policy.wrapped().actor(),
        IntoActor::<A>::actor(interruptable) == interruptable.wrapped().actor(),
        IntoActor::<A>::registering(size) is None,
        IntoActor::<A>::registering(policy) is None,
        IntoActor::<A>::registering(interruptable) == Some(interruptable),
{
}

/// A builder starts with a small bounded mailbox and a policy by which its actor yields now and then,
/// and makes the mailbox of the very size that its settings say, however large.
pub proof fn law_a_builder_makes_the_mailbox_it_is_set_to<D>(
    thread: Span,
    builder: ActorBuilder,
    ends: (AdrCore<D>, AdrRcv<D>),
)
    ensures
        call_ensures(ActorBuilder::new, (thread,), builder) ==> {
            &&& builder.thread() == thread
            &&& builder.settings().mailbox_size matches MailboxSize::Bounded(bound) && bound@ == 16
            &&& builder.settings().yield_policy matches YieldPolicy::Every(n) && n@ == 8
        },
        call_ensures(ActorBuilder::create_channel::<D>, (&builder,), ends)
            ==> match builder.settings().mailbox_size {
            MailboxSize::Bounded(bound) => exists|capacity: usize|
                capacity == bound@ && #[trigger] call_ensures(
                    async_channel::bounded::<D>,
                    (capacity,),
                    (ends.0.sender(), ends.1),
                ),
            MailboxSize::Unbounded => call_ensures(
                async_channel::unbounded::<D>,
                (),
                (ends.0.sender(), ends.1),
            ),
        },
{
    if call_ensures(ActorBuilder::create_channel::<D>, (&builder,), ends) {
        law_the_mailbox_has_the_size_chosen(
            builder.settings().mailbox_size,
            (ends.0.sender(), ends.1),
        );
    }
}

/// What is chosen for an actor is what is kept.
pub proof fn law_a_choice_is_kept<I, R>(
    into_actor: I,
    mailbox_size: MailboxSize,
    policy: YieldPolicy,
    registry: R,
    size: WithMailboxSize<I>,
    yields: WithYieldPolicy<I>,
    interruptable: WithInterruptable<I, R>,
)
    ensures
        call_ensures(<I as IntoActorExt>::mailbox_size, (into_actor, mailbox_size), size)
            ==> size.wrapped() == into_actor && size.size() == mailbox_size,
        call_ensures(<I as IntoActorExt>::yield_policy, (into_actor, policy), yields)
            ==> yields.wrapped() == into_actor && yields.policy() == policy,
        call_ensures(
            <I as IntoActorExt>::interruptable::<R>,
            (into_actor, registry),
            interruptable,
        ) ==> interruptable.wrapped() == into_actor && interruptable.registry() == registry,
{
}

/// An actor is registered with its own registry, and an interrupt is preloaded if and only if it came
/// too late for the first one.
pub proof fn law_a_late_actor_is_interrupted<W, R, Register, Preload>(
    with: WithInterruptable<W, R>,
    register: Register,
    preload: Preload,
    installed: (ActorGuard, Option<Result<(), TrySendError>>),
) where Register: FnOnce(&R) -> ActorGuard, Preload: FnOnce() -> Result<(), TrySendError>
    requires
        call_ensures(
            WithInterruptable::<W, R>::install_signals::<Register, Preload>,
            (&with, register, preload),
            installed,
        ),
    ensures
        call_ensures(register, (&with.registry(),), installed.0),
        installed.1 is Some <==> installed.0.interrupted(),
        installed.1 matches Some(preloaded) ==> call_ensures(preload, (), preloaded),
{
}

/// An actor that has been put together is the one that it was made of, with the next number, the
/// mailbox and the policy that were chosen for it, and a way to announce its exit to those who have
/// its address. It is registered for interrupts if and only if that was chosen, on that address; and
/// it lives in the span that it made of its root span, or of that of the thread.
pub proof fn law_an_actor_is_put_together_as_chosen<A, D, J, G, I, Install, Root, Own>(
    builder: ActorBuilder,
    into_actor: I,
    install_signals: Install,
    root_span: Root,
    own_span: Own,
    raw: RawActor<A, D, J, G>,
) where
    A: Actor,
    I: IntoActor<A>,
    Install: FnOnce(&I::Registering, &Address<D, A::Error>) -> G,
    Root: FnOnce(Id, &Span) -> Span,
    Own: FnOnce(&A, Span) -> Span,

    ensures
        forall|idgen: &mut IdGenerator| #[trigger]
            call_ensures(
                ActorBuilder::raw::<A, D, J, G, I, Install, Root, Own>,
                (builder, into_actor, idgen, install_signals, root_span, own_span),
                raw,
            ) ==> {
                &&& raw.actor == into_actor.actor()
                &&& raw.id == idgen.upcoming()
                &&& final(idgen).upcoming() == (idgen.upcoming() + 1) % (u64::MAX + 1)
                &&& raw.yield_policy == into_actor.adjusted(builder.settings()).yield_policy
                &&& match into_actor.adjusted(builder.settings()).mailbox_size {
                    MailboxSize::Bounded(bound) => exists|capacity: usize|
                        capacity == bound@ && #[trigger] call_ensures(
                            async_channel::bounded::<D>,
                            (capacity,),
                            (raw.home.mailbox().sender(), raw.rcv),
                        ),
                    MailboxSize::Unbounded => call_ensures(
                        async_channel::unbounded::<D>,
                        (),
                        (raw.home.mailbox().sender(), raw.rcv),
                    ),
                }
                &&& raw.ctl.exit() matches Some(exit) && call_ensures(
                    async_broadcast::broadcast::<Result<(), A::Error>>,
                    (1usize,),
                    (exit.sender(), raw.home.status().receiver()),
                )
                &&& call_ensures(
                    Sender::<D>::downgrade,
                    (&raw.home.mailbox().sender(),),
                    raw.ctl.home().mailbox().sender(),
                )
                &&& !raw.ctl.draining()
                &&& raw.signal_guard is Some <==> into_actor.registering() is Some
                &&& raw.signal_guard matches Some(guard) ==> call_ensures(
                    install_signals,
                    (&into_actor.registering()->0, &raw.home),
                    guard,
                )
                &&& exists|root: Span, base: Span| #[trigger]
                    call_ensures(root_span, (raw.id, &builder.thread()), root) && (
                    span_disabled(root) || base == root) && (span_disabled(root) ==> cloned(
                        builder.thread(),
                        base,
                    )) && #[trigger] call_ensures(own_span, (&raw.actor, base), raw.span)
            },
{
    assert forall|idgen: &mut IdGenerator| #[trigger]
        call_ensures(
            ActorBuilder::raw::<A, D, J, G, I, Install, Root, Own>,
            (builder, into_actor, idgen, install_signals, root_span, own_span),
            raw,
        ) implies {
        &&& match into_actor.adjusted(builder.settings()).mailbox_size {
            MailboxSize::Bounded(bound) => exists|capacity: usize|
                capacity == bound@ && #[trigger] call_ensures(
                    async_channel::bounded::<D>,
                    (capacity,),
                    (raw.home.mailbox().sender(), raw.rcv),
                ),
            MailboxSize::Unbounded => call_ensures(
                async_channel::unbounded::<D>,
                (),
                (raw.home.mailbox().sender(), raw.rcv),
            ),
        }
        &&& exists|root: Span, base: Span| #[trigger]
            call_ensures(root_span, (raw.id, &builder.thread()), root) && (span_disabled(root)
                || base == root) && (span_disabled(root) ==> cloned(builder.thread(), base))
                && #[trigger] call_ensures(own_span, (&raw.actor, base), raw.span)
    } by {
        law_the_mailbox_has_the_size_chosen(
            into_actor.adjusted(builder.settings()).mailbox_size,
            (raw.home.mailbox().sender(), raw.rcv),
        );
        let (root, base) = choose|root: Span, base: Span| #[trigger]
            span_made(
                raw.actor,
                raw.id,
                builder.thread(),
                root_span,
                own_span,
                root,
                base,
                raw.span,
            );
        law_an_actor_lives_in_its_own_span(
            raw.actor,
            raw.id,
            builder.thread(),
            root_span,
            own_span,
            root,
            base,
            raw.span,
        );
        assert(call_ensures(root_span, (raw.id, &builder.thread()), root));
        assert(call_ensures(own_span, (&raw.actor, base), raw.span));
    }
}

} // verus!

use actor_rs::actor::bg_job::Job;
use actor_rs::deferred_span::{
    DeferredDirectSpan, DeferredSpan, DeferredSpanMethods, DeferredSpanOr,
};
use actor_rs::utils;
use std::cell::RefCell;
use std::sync::OnceLock;
use tracing::callsite::{Callsite, Identifier};
use tracing::field::{Field, FieldSet, Value};
use tracing::metadata::Kind;
use tracing::subscriber::Interest;
use tracing::{Level, Metadata, Span};

struct Site {
    metadata: OnceLock<Metadata<'static>>,
}

impl Callsite for Site {
    fn set_interest(&self, _interest: Interest) {}

    fn metadata(&self) -> &Metadata<'_> {
        self.metadata.get().expect("it is set when it is made")
    }
}

fn child_of(parent: &Span, target: &'static str, name: &'static str) -> Span {
    let site: &'static Site = Box::leak(Box::new(Site { metadata: OnceLock::new() }));
    let fields = FieldSet::new(&[], Identifier(site));
    let metadata =
        Metadata::new(name, target, Level::INFO, None, None, None, fields, Kind::SPAN);
    let metadata: &'static Metadata<'static> = site.metadata.get_or_init(|| metadata);
    let values: [(&Field, Option<&(dyn Value + 'static)>); 0] = [];
    Span::child_of(parent.id(), metadata, &metadata.fields().value_set(&values))
}

fn info_span(name: &'static str) -> Span {
    child_of(&Span::none(), "tests", name)
}

fn with_registry<R>(test: impl FnOnce() -> R) -> R {
    tracing::subscriber::with_default(tracing_subscriber::registry(), test)
}

fn name(span: &Span) -> &'static str {
    span.metadata().expect("there should be a test subscriber").name()
}

#[test]
fn create() {
    with_registry(|| {
        let parent = info_span("parent");
        let def_child = DeferredSpan::new(|parent: &Span| child_of(parent, "tests", "child"));
        let child = def_child.create(&parent).expect("should be active");
        assert_eq!(name(&child), "child");
    });
}

#[test]
fn create_with_target() {
    with_registry(|| {
        let parent = info_span("parent");
        let def_child =
            DeferredSpan::new(|parent: &Span| child_of(parent, "target::target", "child"));
        let child = def_child.create(&parent).expect("should be active");
        let metadata = child.metadata().expect("there should be a test subscriber");
        assert_eq!(metadata.name(), "child");
        assert_eq!(metadata.target(), "target::target");
    });
}

#[test]
fn choosing_the_first_with_an_or() {
    with_registry(|| {
        let deferred = DeferredSpanOr::new(
            DeferredSpan::new(|parent: &Span| child_of(parent, "tests", "first")),
            DeferredSpan::new(|parent: &Span| child_of(parent, "tests", "second")),
        );
        let span = deferred.create(&Span::none()).expect("should be active");
        assert_eq!(name(&span), "first");
    });
}

#[test]
fn choosing_the_second_with_an_or() {
    with_registry(|| {
        let deferred = DeferredSpanOr::new(
            DeferredSpan::<fn(&Span) -> Span>::none(),
            DeferredSpan::new(|parent: &Span| child_of(parent, "tests", "second")),
        );
        let span = deferred.create(&Span::none()).expect("should be active");
        assert_eq!(name(&span), "second");
    });
}

#[test]
fn or_correct_evaluation_order() {
    let order = RefCell::<Vec<i32>>::new(vec![]);
    let order_ref = &order;
    let deferred = DeferredSpanOr::new(
        DeferredDirectSpan::new(|parent: &Span| {
            order_ref.borrow_mut().push(1);
            parent.clone()
        }),
        DeferredSpanOr::new(
            DeferredDirectSpan::new(|parent: &Span| {
                order_ref.borrow_mut().push(2);
                parent.clone()
            }),
            DeferredDirectSpan::new(|parent: &Span| {
                order_ref.borrow_mut().push(3);
                parent.clone()
            }),
        ),
    );
    deferred.create(&Span::none());

    assert_eq!(vec![1, 2, 3], order.take());
}

#[test]
fn links_after_the_chosen_one_are_not_created() {
    with_registry(|| {
        let order = RefCell::<Vec<i32>>::new(vec![]);
        let deferred = DeferredSpanOr::new(
            DeferredDirectSpan::new(|parent: &Span| {
                order.borrow_mut().push(1);
                child_of(parent, "tests", "one")
            }),
            DeferredDirectSpan::new(|parent: &Span| {
                order.borrow_mut().push(2);
                child_of(parent, "tests", "two")
            }),
        );
        assert_eq!(name(&deferred.call(&Span::none())), "one");
        assert_eq!(vec![1], order.take());
    });
}

#[test]
fn a_disabled_span_is_not_created() {
    let deferred = DeferredDirectSpan::new(|_: &Span| Span::none());
    assert!(deferred.create(&Span::none()).is_none());
    let deferred = DeferredSpan::<fn(&Span) -> Span>::none();
    assert!(deferred.create(&Span::none()).is_none());
    let deferred = DeferredSpan::<fn(&Span) -> Span>::none();
    assert!(deferred.call(&Span::none()).is_disabled());
}

#[test]
fn the_parent_takes_the_place_of_a_disabled_span() {
    with_registry(|| {
        let deferred = DeferredSpan::<fn(&Span) -> Span>::none();
        assert_eq!(name(&deferred.create_or(info_span("parent"))), "parent");
        let deferred = DeferredSpan::new(|parent: &Span| child_of(parent, "tests", "child"));
        assert_eq!(name(&deferred.create_or(info_span("parent"))), "child");
    });
}

#[test]
fn a_job_lives_in_its_own_span_or_in_that_of_the_actor() {
    with_registry(|| {
        let job = Job::<i32, _, fn(&Span) -> Span>::new(5);
        let started = job.start(info_span("alice"));
        assert_eq!(started.future, 5);
        assert_eq!(name(&started.span), "alice");

        let job = Job::new(6)
            .then("done")
            .instrument(DeferredSpan::new(|parent: &Span| child_of(parent, "tests", "double")));
        let started = job.start(info_span("alice"));
        assert_eq!(started.future, 6);
        assert_eq!(started.sync.into_inner(), "done");
        assert_eq!(name(&started.span), "double");
    });
}

#[test]
fn a_thread_has_a_detailed_span_if_that_is_enabled() {
    with_registry(|| {
        let labels = RefCell::<Vec<String>>::new(vec![]);
        let span = utils::thread_info_span(
            Some("worker"),
            |label: &String| {
                labels.borrow_mut().push(label.clone());
                info_span("detailed")
            },
            |_: &String| panic!("the other one is enabled"),
        );
        assert_eq!(name(&span), "detailed");

        let span = utils::thread_info_span(
            None,
            |label: &String| {
                labels.borrow_mut().push(label.clone());
                Span::none()
            },
            |label: &String| {
                labels.borrow_mut().push(label.clone());
                info_span("short")
            },
        );
        assert_eq!(name(&span), "short");
        assert_eq!(labels.take(), vec!["worker", "unnamed", "unnamed"]);
    });
}

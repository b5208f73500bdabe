//! The order in which a host may drive a generator handle and a factory handle.

use vstd::prelude::*;

verus! {

/// Where a generator handle stands in its life.
#[derive(Clone, Copy, Debug, PartialEq, Eq, Structural)]
pub enum GenPhase {
    /// Taking bytes.
    Open,
    /// Closed; the digest can be read.
    Finalized,
    /// Released; nothing may follow.
    Destroyed,
}

/// A call a host makes on a generator handle.
#[derive(Clone, Copy, Debug, PartialEq, Eq, Structural)]
pub enum GenEvent {
    Update,
    Finalize,
    GetChecksum,
    Destroy,
}

/// The phase a call leads to, or none where the call is not allowed there.
pub open spec fn gen_step(p: GenPhase, e: GenEvent) -> Option<GenPhase> {
    match (p, e) {
        (GenPhase::Open, GenEvent::Update) => Some(GenPhase::Open),
        (GenPhase::Open, GenEvent::GetChecksum) => Some(GenPhase::Open),
        (GenPhase::Open, GenEvent::Finalize) => Some(GenPhase::Finalized),
        (GenPhase::Finalized, GenEvent::GetChecksum) => Some(GenPhase::Finalized),
        (GenPhase::Open, GenEvent::Destroy) => Some(GenPhase::Destroyed),
        (GenPhase::Finalized, GenEvent::Destroy) => Some(GenPhase::Destroyed),
        _ => None,
    }
}

/// The phase a sequence of calls leads to from `p`, or none where one is not allowed.
pub open spec fn gen_run(p: GenPhase, events: Seq<GenEvent>) -> Option<GenPhase>
    decreases events.len(),
{
    if events.len() == 0 {
        Some(p)
    } else {
        match gen_step(p, events[0]) {
            Some(q) => gen_run(q, events.drop_first()),
            None => None,
        }
    }
}

/// How many of the calls are `Destroy`.
pub open spec fn gen_destroys(events: Seq<GenEvent>) -> nat
    decreases events.len(),
{
    if events.len() == 0 {
        0
    } else {
        (if events[0] == GenEvent::Destroy { 1nat } else { 0nat }) + gen_destroys(events.drop_first())
    }
}

/// The phase `e` leads to from `p`, or `None` where it is not allowed there.
pub fn next_gen_phase(p: GenPhase, e: GenEvent) -> (r: Option<GenPhase>)
    ensures
        r == gen_step(p, e),
{
    match (p, e) {
        (GenPhase::Open, GenEvent::Update) => Some(GenPhase::Open),
        (GenPhase::Open, GenEvent::GetChecksum) => Some(GenPhase::Open),
        (GenPhase::Open, GenEvent::Finalize) => Some(GenPhase::Finalized),
        (GenPhase::Finalized, GenEvent::GetChecksum) => Some(GenPhase::Finalized),
        (GenPhase::Open, GenEvent::Destroy) => Some(GenPhase::Destroyed),
        (GenPhase::Finalized, GenEvent::Destroy) => Some(GenPhase::Destroyed),
        _ => None,
    }
}

/// Checks a host's calls on one generator handle, from its creation on: the phase
/// they lead to, or `None` at the first call that is not allowed.
pub fn check_gen_events(events: &Vec<GenEvent>) -> (r: Option<GenPhase>)
    ensures
        r == gen_run(GenPhase::Open, events@),
{
    let mut p = GenPhase::Open;
    let mut i: usize = 0;
    assert(events@.subrange(0, events@.len() as int) =~= events@);
    while i < events.len()
        invariant
            0 <= i <= events@.len(),
            gen_run(GenPhase::Open, events@) == gen_run(p, events@.subrange(i as int, events@.len() as int)),
        decreases events.len() - i,
    {
        let ghost rest = events@.subrange(i as int, events@.len() as int);
        assert(rest.drop_first() =~= events@.subrange(i + 1, events@.len() as int));
        match next_gen_phase(p, events[i]) {
            Some(q) => {
                p = q;
            },
            None => {
                return None;
            },
        }
        i = i + 1;
    }
    Some(p)
}

proof fn lemma_gen_destroyed_is_final(events: Seq<GenEvent>)
    requires
        events.len() > 0,
    ensures
        gen_run(GenPhase::Destroyed, events) is None,
{
}

proof fn lemma_gen_exactly_once(p: GenPhase, events: Seq<GenEvent>)
    requires
        p != GenPhase::Destroyed,
        gen_run(p, events) == Some(GenPhase::Destroyed),
    ensures
        gen_destroys(events) == 1,
        events.len() > 0,
        events.last() == GenEvent::Destroy,
    decreases events.len(),
{
    let q = gen_step(p, events[0]).unwrap();
    if q == GenPhase::Destroyed {
        if events.len() > 1 {
            lemma_gen_destroyed_is_final(events.drop_first());
        }
        assert(events.drop_first().len() == 0);
        assert(gen_destroys(events.drop_first()) == 0);
    } else {
        lemma_gen_exactly_once(q, events.drop_first());
        assert(events[0] != GenEvent::Destroy);
        assert(events.last() == events.drop_first().last());
    }
}

/// Every sequence of calls that a host may make on a generator handle and that ends
/// with the handle released holds exactly one `Destroy`, as its last call: nothing
/// refers to the handle after it.
pub proof fn lemma_gen_destroy_exactly_once(events: Seq<GenEvent>)
    requires
        gen_run(GenPhase::Open, events) == Some(GenPhase::Destroyed),
    ensures
        gen_destroys(events) == 1,
        events.len() > 0,
        events.last() == GenEvent::Destroy,
        forall|i: int| 0 <= i < events.len() - 1 ==> events[i] != GenEvent::Destroy,
{
    lemma_gen_exactly_once(GenPhase::Open, events);
    lemma_gen_no_early_destroy(GenPhase::Open, events);
}

proof fn lemma_gen_no_early_destroy(p: GenPhase, events: Seq<GenEvent>)
    requires
        gen_run(p, events) is Some,
    ensures
        forall|i: int| 0 <= i < events.len() - 1 ==> events[i] != GenEvent::Destroy,
    decreases events.len(),
{
    if events.len() > 0 {
        let q = gen_step(p, events[0]).unwrap();
        if q == GenPhase::Destroyed && events.len() > 1 {
            lemma_gen_destroyed_is_final(events.drop_first());
        }
        lemma_gen_no_early_destroy(q, events.drop_first());
        assert forall|i: int| 0 <= i < events.len() - 1 implies events[i] != GenEvent::Destroy by {
            if i > 0 {
                assert(events[i] == events.drop_first()[i - 1]);
            }
        }
    }
}

/// A handle may be released straight after its creation, with no other call before.
pub proof fn lemma_gen_early_destroy()
    ensures
        gen_run(GenPhase::Open, seq![GenEvent::Destroy]) == Some(GenPhase::Destroyed),
{
    assert(seq![GenEvent::Destroy].drop_first() =~= Seq::<GenEvent>::empty());
    assert(gen_run(GenPhase::Destroyed, Seq::<GenEvent>::empty()) == Some(GenPhase::Destroyed));
}

/// Where a factory handle stands in its life.
#[derive(Clone, Copy, Debug, PartialEq, Eq, Structural)]
pub enum FactoryPhase {
    /// Registered; it may be asked for generators.
    Live,
    /// Released; nothing may follow.
    Destroyed,
}

/// A call a host makes on a factory handle.
#[derive(Clone, Copy, Debug, PartialEq, Eq, Structural)]
pub enum FactoryEvent {
    CreateGenerator,
    Destroy,
}

/// The phase a call leads to, or none where the call is not allowed there.
pub open spec fn factory_step(p: FactoryPhase, e: FactoryEvent) -> Option<FactoryPhase> {
    match p {
        FactoryPhase::Live => match e {
            FactoryEvent::CreateGenerator => Some(FactoryPhase::Live),
            FactoryEvent::Destroy => Some(FactoryPhase::Destroyed),
        },
        FactoryPhase::Destroyed => None,
    }
}

/// The phase a sequence of calls leads to from `p`, or none where one is not allowed.
pub open spec fn factory_run(p: FactoryPhase, events: Seq<FactoryEvent>) -> Option<FactoryPhase>
    decreases events.len(),
{
    if events.len() == 0 {
        Some(p)
    } else {
        match factory_step(p, events[0]) {
            Some(q) => factory_run(q, events.drop_first()),
            None => None,
        }
    }
}

/// How many of the calls are `Destroy`.
pub open spec fn factory_destroys(events: Seq<FactoryEvent>) -> nat
    decreases events.len(),
{
    if events.len() == 0 {
        0
    } else {
        (if events[0] == FactoryEvent::Destroy { 1nat } else { 0nat }) + factory_destroys(
            events.drop_first(),
        )
    }
}

/// The phase `e` leads to from `p`, or `None` where it is not allowed there.
pub fn next_factory_phase(p: FactoryPhase, e: FactoryEvent) -> (r: Option<FactoryPhase>)
    ensures
        r == factory_step(p, e),
{
    match p {
        FactoryPhase::Live => match e {
            FactoryEvent::CreateGenerator => Some(FactoryPhase::Live),
            FactoryEvent::Destroy => Some(FactoryPhase::Destroyed),
        },
        FactoryPhase::Destroyed => None,
    }
}

/// Checks a host's calls on one factory handle, from its creation on: the phase they
/// lead to, or `None` at the first call that is not allowed.
pub fn check_factory_events(events: &Vec<FactoryEvent>) -> (r: Option<FactoryPhase>)
    ensures
        r == factory_run(FactoryPhase::Live, events@),
{
    let mut p = FactoryPhase::Live;
    let mut i: usize = 0;
    assert(events@.subrange(0, events@.len() as int) =~= events@);
    while i < events.len()
        invariant
            0 <= i <= events@.len(),
            factory_run(FactoryPhase::Live, events@) == factory_run(
                p,
                events@.subrange(i as int, events@.len() as int),
            ),
        decreases events.len() - i,
    {
        let ghost rest = events@.subrange(i as int, events@.len() as int);
        assert(rest.drop_first() =~= events@.subrange(i + 1, events@.len() as int));
        match next_factory_phase(p, events[i]) {
            Some(q) => {
                p = q;
            },
            None => {
                return None;
            },
        }
        i = i + 1;
    }
    Some(p)
}

proof fn lemma_factory_exactly_once(events: Seq<FactoryEvent>)
    requires
        factory_run(FactoryPhase::Live, events) == Some(FactoryPhase::Destroyed),
    ensures
        factory_destroys(events) == 1,
        events.len() > 0,
        events.last() == FactoryEvent::Destroy,
        forall|i: int| 0 <= i < events.len() - 1 ==> events[i] != FactoryEvent::Destroy,
    decreases events.len(),
{
    let rest = events.drop_first();
    if events[0] == FactoryEvent::Destroy {
        if rest.len() > 0 {
            assert(factory_run(FactoryPhase::Destroyed, rest) is None);
        }
        assert(rest.len() == 0);
        assert(factory_destroys(rest) == 0);
    } else {
        lemma_factory_exactly_once(rest);
        assert(events.last() == rest.last());
        assert forall|i: int| 0 <= i < events.len() - 1 implies events[i] != FactoryEvent::Destroy by {
            if i > 0 {
                assert(events[i] == rest[i - 1]);
            }
        }
    }
}

/// Every sequence of calls that a host may make on a factory handle and that ends
/// with the handle released holds exactly one `Destroy`, as its last call: nothing
/// refers to the handle after it.
pub proof fn lemma_factory_destroy_exactly_once(events: Seq<FactoryEvent>)
    requires
        factory_run(FactoryPhase::Live, events) == Some(FactoryPhase::Destroyed),
    ensures
        factory_destroys(events) == 1,
        events.len() > 0,
        events.last() == FactoryEvent::Destroy,
        forall|i: int| 0 <= i < events.len() - 1 ==> events[i] != FactoryEvent::Destroy,
{
    lemma_factory_exactly_once(events);
}

} // verus!

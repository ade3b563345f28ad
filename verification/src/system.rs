//! The rules of a session behind the counter: who stands in line, who is
//! being served, what a customer makes of a donut, and when the shop has won.

use crate::component::{
    cycled_left, cycled_right, lemma_cycle_inverse, on_ring, DonutBundle, ToSpriteIndex, BASES,
    GLAZINGS, SPRINKLES,
};
use crate::emo::Emo;
use crate::random::{choose_item, gen_below, thread_rng};
use crate::taste::{Taste, MAX_RATING};
use crate::AppState;
use std::collections::VecDeque;
use vstd::prelude::*;

verus! {

/// How many customers the line is filled up to.
pub const LINE_DEPTH: usize = 4;

/// How many regulars win the session.
pub const REGULARS_TO_WIN: usize = 3;

/// How long a customer who had a perfect donut lingers at the counter, in
/// milliseconds. Any other customer leaves at once.
pub const LEAVING_MILLIS: u64 = 2100;

/// How long a customer's feeling stays on show, in milliseconds.
pub const EMOTION_MILLIS: u64 = 2000;

/// Someone who queues for donuts.
#[derive(Debug, Clone, Copy)]
pub struct Customer {
    /// The name the caller knows the customer by.
    pub id: u64,
    /// What the customer likes.
    pub taste: Taste,
    /// Whether the last donut the customer had was perfect.
    pub regular: bool,
}

/// What happens at the counter.
#[derive(Debug, Clone, Copy, PartialEq, Eq, Structural)]
pub enum Serving {
    /// Nobody stands at the counter, and whoever heads the line has not been
    /// served yet.
    Nobody,
    /// The head of the line stands at the counter and waits for a donut.
    Waiting,
    /// The head of the line has had a perfect donut and lingers at the
    /// counter before leaving.
    Leaving,
    /// Nobody stands at the counter: the head of the line has been served and
    /// has left it. They go to the back when the next customer is called.
    Served,
}

impl Serving {
    /// Whether nobody stands at the counter.
    pub open spec fn free(self) -> bool {
        self == Serving::Nobody || self == Serving::Served
    }
}

/// What a customer made of a donut.
#[derive(Debug, Clone, Copy, PartialEq, Eq, Structural)]
pub struct Verdict {
    /// The customer who tasted.
    pub customer: u64,
    /// The stars the donut earned.
    pub rank: usize,
    /// The feeling the customer shows.
    pub emotion: Emo,
    /// Whether the customer comes back as a regular.
    pub regular: bool,
}

/// How a new customer looks.
#[derive(Debug, Clone, Copy, PartialEq, Eq, Structural)]
pub struct Look {
    /// Sheet index of the face.
    pub face: usize,
    /// Sheet index of the hair style.
    pub hair: usize,
}

/// The keys that turn the layers of the donut on the stove, each with whether
/// it went down in this tick.
#[derive(Debug, Clone, Copy, PartialEq, Eq, Structural)]
pub struct CookingKeys {
    /// The arrow to the right: the next base.
    pub right: bool,
    /// The arrow to the left: the previous base.
    pub left: bool,
    /// The next base.
    pub w: bool,
    /// The previous base.
    pub q: bool,
    /// The next glazing.
    pub s: bool,
    /// The previous glazing.
    pub a: bool,
    /// The next sprinkles.
    pub x: bool,
    /// The previous sprinkles.
    pub z: bool,
}

/// The buttons that turn the layers of the donut on the stove, each with
/// whether it was clicked in this tick.
#[derive(Debug, Clone, Copy, PartialEq, Eq, Structural)]
pub struct CookingButtons {
    pub base_left: bool,
    pub base_right: bool,
    pub glazing_left: bool,
    pub glazing_right: bool,
    pub sprinkles_left: bool,
    pub sprinkles_right: bool,
}

/// Whether a layer can be turned where that is asked for: the sum that the
/// step works out fits the machine's numbers. Every variant on a ring does.
pub open spec fn turn_fits(asked: bool, value: usize, count: usize) -> bool {
    asked ==> value + count + 1 <= usize::MAX
}

impl CookingKeys {
    /// Whether every layer that a key turns can be turned.
    pub open spec fn fits(&self, donut: DonutBundle) -> bool {
        &&& turn_fits(self.right || self.left || self.w || self.q, donut.base.0, BASES)
        &&& turn_fits(self.s || self.a, donut.glazing.0, GLAZINGS)
        &&& turn_fits(self.x || self.z, donut.sprinkles.0, SPRINKLES)
    }

    /// Tells whether every layer that a key turns can be turned.
    pub fn fit(&self, donut: &DonutBundle) -> (fit: bool)
        ensures
            fit == self.fits(*donut),
            donut.wf() ==> fit,
    {
        layer_fits(self.right || self.left || self.w || self.q, donut.base.0, BASES) && layer_fits(
            self.s || self.a,
            donut.glazing.0,
            GLAZINGS,
        ) && layer_fits(self.x || self.z, donut.sprinkles.0, SPRINKLES)
    }
}

impl CookingButtons {
    /// Whether every layer that a button turns can be turned.
    pub open spec fn fits(&self, donut: DonutBundle) -> bool {
        &&& turn_fits(self.base_left || self.base_right, donut.base.0, BASES)
        &&& turn_fits(self.glazing_left || self.glazing_right, donut.glazing.0, GLAZINGS)
        &&& turn_fits(self.sprinkles_left || self.sprinkles_right, donut.sprinkles.0, SPRINKLES)
    }

    /// Tells whether every layer that a button turns can be turned.
    pub fn fit(&self, donut: &DonutBundle) -> (fit: bool)
        ensures
            fit == self.fits(*donut),
            donut.wf() ==> fit,
    {
        layer_fits(self.base_left || self.base_right, donut.base.0, BASES) && layer_fits(
            self.glazing_left || self.glazing_right,
            donut.glazing.0,
            GLAZINGS,
        ) && layer_fits(self.sprinkles_left || self.sprinkles_right, donut.sprinkles.0, SPRINKLES)
    }
}

/// Tells whether a layer can be turned where that is asked for.
fn layer_fits(asked: bool, value: usize, count: usize) -> (fit: bool)
    requires
        count < 16,
    ensures
        fit == turn_fits(asked, value, count),
{
    !asked || value <= usize::MAX - count - 1
}

/// The variant after a step to the right that is taken only on demand.
pub open spec fn right_if(asked: bool, value: int, count: int) -> int {
    if asked {
        cycled_right(value, count)
    } else {
        value
    }
}

/// The variant after a step to the left that is taken only on demand.
pub open spec fn left_if(asked: bool, value: int, count: int) -> int {
    if asked {
        cycled_left(value, count)
    } else {
        value
    }
}

/// The number of regulars among the customers of a line.
pub open spec fn regulars(line: Seq<Customer>) -> nat
    decreases line.len(),
{
    if line.len() == 0 {
        0
    } else {
        regulars(line.drop_last()) + if line.last().regular {
            1nat
        } else {
            0nat
        }
    }
}

/// The line after its head has gone to the back.
pub open spec fn rotated(line: Seq<Customer>) -> Seq<Customer> {
    if line.len() == 0 {
        line
    } else {
        line.drop_first().push(line[0])
    }
}

/// The line after one customer has asked to join: the customer stands at the
/// back if the line was short of `LINE_DEPTH`, and is turned away if not.
pub open spec fn joined(line: Seq<Customer>, customer: Customer) -> Seq<Customer> {
    if line.len() < LINE_DEPTH {
        line.push(customer)
    } else {
        line
    }
}

/// The line after several customers have asked to join, one per tick.
pub open spec fn joined_all(line: Seq<Customer>, customers: Seq<Customer>) -> Seq<Customer>
    decreases customers.len(),
{
    if customers.len() == 0 {
        line
    } else {
        joined(joined_all(line, customers.drop_last()), customers.last())
    }
}

/// The line after its head has gone to the back `times` times.
pub open spec fn rotated_by(line: Seq<Customer>, times: nat) -> Seq<Customer>
    decreases times,
{
    if times == 0 {
        line
    } else {
        rotated(rotated_by(line, (times - 1) as nat))
    }
}

/// A key or button for each direction, pressed in the same tick, leave a layer
/// as it was.
pub proof fn lemma_opposite_turns_cancel(value: int, count: int)
    requires
        on_ring(value, count),
    ensures
        left_if(true, right_if(true, value, count), count) == value,
        right_if(true, left_if(true, value, count), count) == value,
{
    lemma_cycle_inverse(value, count);
}

/// A tick lets at most one customer join, lets one join whenever the line is
/// short of `LINE_DEPTH`, and never makes a line longer than `LINE_DEPTH`
/// that was not so before.
pub proof fn lemma_joined(line: Seq<Customer>, customer: Customer)
    ensures
        line.len() < LINE_DEPTH ==> joined(line, customer).len() == line.len() + 1,
        line.len() >= LINE_DEPTH ==> joined(line, customer) == line,
        line.len() <= LINE_DEPTH ==> joined(line, customer).len() <= LINE_DEPTH,
        line.is_prefix_of(joined(line, customer)),
{
}

/// Tick after tick the line fills up to `LINE_DEPTH` and stays there: after
/// as many ticks as customers have asked to join, it holds those who were in
/// it and as many of the newcomers as it was short of, in their order.
pub proof fn lemma_line_fills_up(line: Seq<Customer>, customers: Seq<Customer>)
    requires
        line.len() <= LINE_DEPTH,
    ensures
        joined_all(line, customers).len() == if line.len() + customers.len() >= LINE_DEPTH {
            LINE_DEPTH as nat
        } else {
            line.len() + customers.len()
        },
        joined_all(line, customers) == (line + customers).take(
            joined_all(line, customers).len() as int,
        ),
    decreases customers.len(),
{
    if customers.len() > 0 {
        let before = joined_all(line, customers.drop_last());
        lemma_line_fills_up(line, customers.drop_last());
        assert(line + customers =~= (line + customers.drop_last()).push(customers.last()));
        assert(joined_all(line, customers) =~= (line + customers).take(
            joined_all(line, customers).len() as int,
        ));
    } else {
        assert(line + customers =~= line);
        assert(line.take(line.len() as int) =~= line);
    }
}

/// Going to the back of the line `times` times moves the first `times`
/// customers behind the others, in their order. So the customers come to the
/// head of the line in the order they stand in, and when each of them has
/// gone to the back once the line stands as it stood.
pub proof fn lemma_rotated_by(line: Seq<Customer>, times: nat)
    requires
        times <= line.len(),
    ensures
        rotated_by(line, times) == line.skip(times as int) + line.take(times as int),
        times == line.len() ==> rotated_by(line, times) == line,
    decreases times,
{
    if times > 0 {
        let before = rotated_by(line, (times - 1) as nat);
        lemma_rotated_by(line, (times - 1) as nat);
        assert(rotated(before) =~= line.skip(times as int) + line.take(times as int));
    }
    assert(line.skip(0) + line.take(0) =~= line);
    assert(line.skip(line.len() as int) + line.take(line.len() as int) =~= line);
}

/// Going to the back of the line makes nobody a regular and costs nobody
/// their standing: the number of regulars stays.
pub proof fn lemma_rotated_regulars(line: Seq<Customer>)
    ensures
        regulars(rotated(line)) == regulars(line),
        rotated(line).len() == line.len(),
{
    if line.len() > 0 {
        lemma_regulars_push_front(line.drop_first(), line[0]);
        assert(seq![line[0]] + line.drop_first() =~= line);
        assert(rotated(line).drop_last() =~= line.drop_first());
    }
}

/// A customer at the head of a line counts as much as one at its back.
proof fn lemma_regulars_push_front(line: Seq<Customer>, head: Customer)
    ensures
        regulars(seq![head] + line) == regulars(line.push(head)),
    decreases line.len(),
{
    let whole = seq![head] + line;
    if line.len() == 0 {
        assert(whole =~= line.push(head));
    } else {
        let shorter = line.drop_last();
        lemma_regulars_push_front(shorter, head);
        assert(whole.drop_last() =~= seq![head] + shorter);
        assert(whole.last() == line.last());
        assert(line.push(head).drop_last() =~= line);
        assert(shorter.push(head).drop_last() =~= shorter);
        let one: nat = if head.regular {
            1
        } else {
            0
        };
        assert(regulars(shorter.push(head)) == regulars(shorter) + one);
        assert(regulars(line.push(head)) == regulars(line) + one);
    }
}

/// A session as its rules see it.
pub struct SessionView {
    /// The customers in line, the head first.
    pub line: Seq<Customer>,
    /// What happens at the counter.
    pub serving: Serving,
}

impl SessionView {
    /// Whether the line is no longer than `LINE_DEPTH` and somebody is in it
    /// while the counter is taken or its head has been served.
    pub open spec fn wf(self) -> bool {
        &&& self.line.len() <= LINE_DEPTH
        &&& self.serving != Serving::Nobody ==> self.line.len() > 0
    }

    /// The customer at the counter: the head of the line, while the counter
    /// is taken.
    pub open spec fn current(self) -> Option<Customer> {
        if self.serving.free() || self.line.len() == 0 {
            None
        } else {
            Some(self.line[0])
        }
    }
}

/// The customers of a shop and the state of its counter. The head of the
/// line is served first. The line is a ring: a customer who has been served
/// stays in it, goes to its back when the next one is called, and comes to
/// the counter again when the others have had their turn.
#[derive(Debug)]
pub struct Session {
    line: VecDeque<Customer>,
    serving: Serving,
}

impl View for Session {
    type V = SessionView;

    closed spec fn view(&self) -> SessionView {
        SessionView { line: self.line@, serving: self.serving }
    }
}

impl Session {
    #[verifier::type_invariant]
    spec fn inv(self) -> bool {
        self@.wf()
    }

    /// A session that nobody has come to yet.
    pub fn new() -> (session: Self)
        ensures
            session@.wf(),
            session@.line == Seq::<Customer>::empty(),
            session@.serving == Serving::Nobody,
    {
        Session { line: VecDeque::new(), serving: Serving::Nobody }
    }

    /// The number of customers in line.
    pub fn len(&self) -> (len: usize)
        ensures
            len == self@.line.len(),
            len <= LINE_DEPTH,
    {
        proof {
            use_type_invariant(self);
        }
        self.line.len()
    }

    /// Whether the line is short of `LINE_DEPTH`, so that it takes a customer.
    pub fn wants_customer(&self) -> (wanted: bool)
        ensures
            wanted == (self@.line.len() < LINE_DEPTH),
    {
        self.line.len() < LINE_DEPTH
    }

    /// What happens at the counter.
    pub fn serving(&self) -> (serving: Serving)
        ensures
            serving == self@.serving,
    {
        self.serving
    }

    /// The customer at the counter, if there is one.
    pub fn current(&self) -> (current: Option<Customer>)
        ensures
            current == self@.current(),
    {
        if self.serving == Serving::Nobody || self.serving == Serving::Served
            || self.line.len() == 0 {
            None
        } else {
            Some(self.line[0])
        }
    }

    /// The customers in line, the head first.
    pub fn customers(&self) -> (customers: Vec<Customer>)
        ensures
            customers@ == self@.line,
    {
        let mut customers: Vec<Customer> = Vec::new();
        let mut i: usize = 0;
        while i < self.line.len()
            invariant
                i <= self.line@.len(),
                customers@ == self.line@.take(i as int),
            decreases self.line@.len() - i,
        {
            customers.push(self.line[i]);
            assert(self.line@.take(i + 1) =~= self.line@.take(i as int).push(self.line@[i as int]));
            i += 1;
        }
        assert(self.line@.take(i as int) =~= self.line@);
        customers
    }

    /// The number of regulars among the customers.
    pub fn regulars(&self) -> (count: usize)
        ensures
            count == regulars(self@.line),
            count <= LINE_DEPTH,
    {
        proof {
            use_type_invariant(self);
        }
        let mut count: usize = 0;
        let mut i: usize = 0;
        while i < self.line.len()
            invariant
                i <= self.line@.len() <= LINE_DEPTH,
                count == regulars(self.line@.take(i as int)),
                count <= i,
            decreases self.line@.len() - i,
        {
            assert(self.line@.take(i + 1).drop_last() =~= self.line@.take(i as int));
            if self.line[i].regular {
                count += 1;
            }
            i += 1;
        }
        assert(self.line@.take(i as int) =~= self.line@);
        count
    }

    /// Takes the line and the state of the counter out of the session, which
    /// is left without customers.
    fn take(&mut self) -> (taken: (VecDeque<Customer>, Serving))
        ensures
            taken.0@ == old(self)@.line,
            taken.1 == old(self)@.serving,
            old(self)@.wf(),
    {
        proof {
            use_type_invariant(&*self);
        }
        let mut taken = Session::new();
        std::mem::swap(self, &mut taken);
        (taken.line, taken.serving)
    }

    /// Puts a line and the state of its counter in the place of the session's
    /// own.
    fn put(&mut self, line: VecDeque<Customer>, serving: Serving)
        requires
            (SessionView { line: line@, serving }).wf(),
        ensures
            final(self)@ == (SessionView { line: line@, serving }),
    {
        *self = Session { line, serving };
    }

    /// Lets a customer join the back of the line, unless the line is full.
    pub fn join(&mut self, customer: Customer) -> (joining: bool)
        ensures
            joining == (old(self)@.line.len() < LINE_DEPTH),
            final(self)@.line == joined(old(self)@.line, customer),
            final(self)@.serving == old(self)@.serving,
            final(self)@.wf(),
    {
        let (mut line, serving) = self.take();
        let joining = line.len() < LINE_DEPTH;
        if joining {
            line.push_back(customer);
        }
        self.put(line, serving);
        joining
    }
}

/// Opens a session: nobody stands in line yet, and the counter is free.
pub fn setup_game() -> (session: Session)
    ensures
        session@.wf(),
        session@.line == Seq::<Customer>::empty(),
        session@.serving == Serving::Nobody,
{
    Session::new()
}

/// Fills the line by one customer per tick while it is short of `LINE_DEPTH`:
/// a stranger with a taste of their own, who is no regular yet.
pub fn fill_line(session: &mut Session, id: u64) -> (arrival: Option<Customer>)
    ensures
        arrival is Some <==> old(session)@.line.len() < LINE_DEPTH,
        arrival matches Some(customer) ==> {
            &&& customer.id == id
            &&& !customer.regular
            &&& customer.taste@.wf()
            &&& customer.taste@.decided()
            &&& final(session)@.line == joined(old(session)@.line, customer)
        },
        arrival is None ==> final(session)@.line == old(session)@.line,
        final(session)@.serving == old(session)@.serving,
        final(session)@.wf(),
{
    if session.wants_customer() {
        let customer = Customer { id, taste: Taste::random(), regular: false };
        session.join(customer);
        Some(customer)
    } else {
        proof {
            use_type_invariant(&*session);
        }
        None
    }
}

/// Picks the look of a new customer: one of the faces on the sheet, or the
/// first sprite where the sheet has no face, and one of the hair styles.
pub fn random_look(face_indexes: &Vec<usize>, hair_styles: usize) -> (look: Look)
    requires
        hair_styles > 0,
    ensures
        look.hair < hair_styles,
        face_indexes@.len() > 0 ==> face_indexes@.contains(look.face),
        face_indexes@.len() == 0 ==> look.face == 0,
{
    let mut rng = thread_rng();
    let face = look_of_face(choose_item(face_indexes.as_slice(), &mut rng));
    let hair = gen_below(&mut rng, hair_styles);
    Look { face, hair }
}

/// The face that a pick among the faces stands for: the pick, or the first
/// sprite where nothing could be picked.
pub fn look_of_face(pick: Option<usize>) -> (face: usize)
    ensures
        face == match pick {
            Some(face) => face,
            None => 0,
        },
{
    match pick {
        Some(face) => face,
        None => 0,
    }
}

/// Turns the layers of the donut on the stove as the keys ask. Every key that
/// went down turns its layer one step: the base right, left, right and left
/// again for the two arrows, `w` and `q`, the glazing right for `s` and left
/// for `a`, the sprinkles right for `x` and left for `z`. A layer that no key
/// turns stays as it is.
pub fn change_cooking_donut(keys: &CookingKeys, donut: &mut DonutBundle)
    requires
        keys.fits(*old(donut)),
    ensures
        final(donut).base.0 == left_if(
            keys.q,
            right_if(
                keys.w,
                left_if(
                    keys.left,
                    right_if(keys.right, old(donut).base.0 as int, BASES as int),
                    BASES as int,
                ),
                BASES as int,
            ),
            BASES as int,
        ),
        final(donut).glazing.0 == left_if(
            keys.a,
            right_if(keys.s, old(donut).glazing.0 as int, GLAZINGS as int),
            GLAZINGS as int,
        ),
        final(donut).sprinkles.0 == left_if(
            keys.z,
            right_if(keys.x, old(donut).sprinkles.0 as int, SPRINKLES as int),
            SPRINKLES as int,
        ),
        old(donut).wf() ==> final(donut).wf(),
{
    if keys.right {
        donut.base.cycle_right();
    }
    if keys.left {
        donut.base.cycle_left();
    }
    if keys.w {
        donut.base.cycle_right();
    }
    if keys.q {
        donut.base.cycle_left();
    }
    if keys.s {
        donut.glazing.cycle_right();
    }
    if keys.a {
        donut.glazing.cycle_left();
    }
    if keys.x {
        donut.sprinkles.cycle_right();
    }
    if keys.z {
        donut.sprinkles.cycle_left();
    }
}

/// Turns the layers of the donut on the stove as the buttons ask. Every
/// button that was clicked turns its layer one step, the left one of a layer
/// before the right one. A layer that no button turns stays as it is.
pub fn change_cooking_donut_buttons(buttons: &CookingButtons, donut: &mut DonutBundle)
    requires
        buttons.fits(*old(donut)),
    ensures
        final(donut).base.0 == right_if(
            buttons.base_right,
            left_if(buttons.base_left, old(donut).base.0 as int, BASES as int),
            BASES as int,
        ),
        final(donut).glazing.0 == right_if(
            buttons.glazing_right,
            left_if(buttons.glazing_left, old(donut).glazing.0 as int, GLAZINGS as int),
            GLAZINGS as int,
        ),
        final(donut).sprinkles.0 == right_if(
            buttons.sprinkles_right,
            left_if(buttons.sprinkles_left, old(donut).sprinkles.0 as int, SPRINKLES as int),
            SPRINKLES as int,
        ),
        old(donut).wf() ==> final(donut).wf(),
{
    if buttons.base_left {
        donut.base.cycle_left();
    }
    if buttons.base_right {
        donut.base.cycle_right();
    }
    if buttons.glazing_left {
        donut.glazing.cycle_left();
    }
    if buttons.glazing_right {
        donut.glazing.cycle_right();
    }
    if buttons.sprinkles_left {
        donut.sprinkles.cycle_left();
    }
    if buttons.sprinkles_right {
        donut.sprinkles.cycle_right();
    }
}

/// How many plain donuts go on the stove in place of the one that is there:
/// one for a click on the button, and one for the key `n`.
pub fn cook_another_donut(clicked: bool, key_n: bool) -> (fresh: usize)
    ensures
        fresh == (if clicked {
            1usize
        } else {
            0usize
        }) + (if key_n {
            1usize
        } else {
            0usize
        }),
{
    let mut fresh: usize = 0;
    if clicked {
        fresh += 1;
    }
    if key_n {
        fresh += 1;
    }
    fresh
}

/// Calls the next customer to the counter once it is free. A head of the
/// line that has been served goes to the back first; whoever heads the line
/// then is called. Nobody is called while the counter is taken or the line is
/// empty.
pub fn next_customer(session: &mut Session) -> (called: Option<u64>)
    ensures
        called is Some <==> old(session)@.serving.free() && old(session)@.line.len() > 0,
        called matches Some(id) ==> {
            &&& old(session)@.serving == Serving::Served ==> final(session)@.line == rotated(
                old(session)@.line,
            )
            &&& old(session)@.serving == Serving::Nobody ==> final(session)@.line == old(
                session,
            )@.line
            &&& final(session)@.serving == Serving::Waiting
            &&& id == final(session)@.line[0].id
            &&& final(session)@.current() == Some(final(session)@.line[0])
        },
        called is None ==> final(session)@ == old(session)@,
        final(session)@.wf(),
{
    let (mut line, serving) = session.take();
    if (serving == Serving::Nobody || serving == Serving::Served) && line.len() > 0 {
        if serving == Serving::Served {
            let head = line.pop_front().unwrap();
            line.push_back(head);
            assert(line@ =~= rotated(old(session)@.line));
        }
        let id = line[0].id;
        session.put(line, Serving::Waiting);
        Some(id)
    } else {
        session.put(line, serving);
        None
    }
}

/// Offers the donut on the stove to the customer at the counter. The customer
/// ranks it and shows a feeling. After a perfect donut they are a regular
/// from now on and linger at the counter until `leaving` sends them away;
/// after any other donut they are no regular and leave the counter at once.
/// Nothing happens without a customer at the counter or without a donut.
pub fn offer_cooked_donut(session: &mut Session, donut: Option<&DonutBundle>) -> (verdict: Option<
    Verdict,
>)
    requires
        old(session)@.current() is Some ==> (donut matches Some(cooked) ==> cooked.wf()),
    ensures
        verdict is Some <==> old(session)@.current() is Some && donut is Some,
        verdict matches Some(given) ==> {
            let customer = old(session)@.line[0];
            &&& given.customer == customer.id
            &&& given.rank == customer.taste@.rank(*donut->0)
            &&& given.emotion == Emo::of_rank(given.rank as int)
            &&& given.regular == (given.rank == MAX_RATING)
            &&& final(session)@.line == old(session)@.line.update(
                0,
                Customer { regular: given.regular, ..customer },
            )
            &&& given.regular ==> final(session)@.serving == Serving::Leaving
            &&& !given.regular ==> final(session)@.serving == Serving::Served
            &&& !given.regular ==> final(session)@.current() is None
        },
        verdict is None ==> final(session)@ == old(session)@,
        final(session)@.wf(),
{
    let (mut line, serving) = session.take();
    match donut {
        Some(cooked) if serving == Serving::Waiting || serving == Serving::Leaving => {
            let mut customer = line.pop_front().unwrap();
            let rank = customer.taste.rank(&cooked.base, &cooked.glazing, &cooked.sprinkles);
            let emotion = Emo::from_rank(rank);
            let regular = emotion == Emo::Love;
            customer.regular = regular;
            line.push_front(customer);
            assert(line@ =~= old(session)@.line.update(0, customer));
            if regular {
                session.put(line, Serving::Leaving);
            } else {
                session.put(line, Serving::Served);
            }
            Some(Verdict { customer: customer.id, rank, emotion, regular })
        },
        _ => {
            session.put(line, serving);
            None
        },
    }
}

/// Sends the customer who lingers at the counter away once they have
/// lingered long enough: the counter is free again, and its head has been
/// served. Nothing happens while nobody lingers.
pub fn leaving(session: &mut Session) -> (left: Option<u64>)
    ensures
        left is Some <==> old(session)@.serving == Serving::Leaving,
        left matches Some(id) ==> {
            &&& id == old(session)@.line[0].id
            &&& final(session)@.serving == Serving::Served
            &&& final(session)@.line == old(session)@.line
        },
        left is None ==> final(session)@ == old(session)@,
        final(session)@.wf(),
{
    proof {
        use_type_invariant(&*session);
    }
    if session.serving == Serving::Leaving {
        session.serving = Serving::Served;
        Some(session.line[0].id)
    } else {
        None
    }
}

/// Ends the game once enough customers are regulars: the state to go on in.
pub fn winning(session: &Session, state: AppState) -> (next: AppState)
    ensures
        next == if regulars(session@.line) >= REGULARS_TO_WIN {
            AppState::GameOver
        } else {
            state
        },
        state == AppState::InGame ==> (next == AppState::GameOver <==> regulars(session@.line)
            >= REGULARS_TO_WIN),
{
    if session.regulars() >= REGULARS_TO_WIN {
        AppState::GameOver
    } else {
        state
    }
}

/// Starts a new game when the button on the last screen is clicked: the state
/// to go on in.
pub fn play_again_button(clicked: bool, state: AppState) -> (next: AppState)
    ensures
        next == if clicked {
            AppState::InGame
        } else {
            state
        },
{
    if clicked {
        AppState::InGame
    } else {
        state
    }
}

} // verus!

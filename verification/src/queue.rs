//! The queue of planned work periods.

use std::collections::VecDeque;
use vstd::prelude::*;

verus! {

/// One planned work period.
#[derive(Debug)]
pub struct Period {
    pub id: u128,
    pub name: String,
}

/// Whether `i` is the first place in `s` that holds a period with `id`.
pub open spec fn is_first(s: Seq<Period>, id: u128, i: int) -> bool {
    &&& 0 <= i < s.len()
    &&& s[i].id == id
    &&& forall|j: int| 0 <= j < i ==> s[j].id != id
}

/// The first place in `s` that holds a period with `id`.
pub open spec fn spec_position(s: Seq<Period>, id: u128) -> Option<int> {
    if exists|i: int| is_first(s, id, i) {
        Some(choose|i: int| is_first(s, id, i))
    } else {
        None
    }
}

/// Whether `after` is `s` with one period added at the back for each of
/// `ids`, in their order, each named `name`.
pub open spec fn spec_enqueued(
    s: Seq<Period>,
    after: Seq<Period>,
    name: Seq<char>,
    ids: Seq<u128>,
) -> bool {
    &&& after.len() == s.len() + ids.len()
    &&& after.subrange(0, s.len() as int) == s
    &&& forall|j: int|
        s.len() <= j < after.len() ==> (#[trigger] after[j]).id == ids[j - s.len()]
            && after[j].name@ == name
}

/// `s` without the periods that have `id`.
pub open spec fn spec_remove(s: Seq<Period>, id: u128) -> Seq<Period> {
    s.filter(|p: Period| p.id != id)
}

/// `s` with the first period that has `id` moved to the head, the others
/// keeping their order; `s` itself where no period has `id`.
pub open spec fn spec_move_to_front(s: Seq<Period>, id: u128) -> Seq<Period> {
    match spec_position(s, id) {
        Some(i) => seq![s[i]] + s.remove(i),
        None => s,
    }
}

/// `s` with the first period that has `id` swapped with the one before it;
/// `s` itself where that period is the head or no period has `id`.
pub open spec fn spec_move_up(s: Seq<Period>, id: u128) -> Seq<Period> {
    match spec_position(s, id) {
        Some(i) => if i > 0 {
            s.update(i - 1, s[i]).update(i, s[i - 1])
        } else {
            s
        },
        None => s,
    }
}

/// The first place that holds `id` is the position of `id`.
pub proof fn lemma_position_is_first(s: Seq<Period>, id: u128, i: int)
    requires
        is_first(s, id, i),
    ensures
        spec_position(s, id) == Some(i),
{
    let c = choose|c: int| is_first(s, id, c);
    assert(is_first(s, id, c));
    if c < i {
        assert(s[c].id != id);
    } else if i < c {
        assert(s[i].id != id);
    }
}

/// An identifier that no period has is at no position.
pub proof fn lemma_position_absent(s: Seq<Period>, id: u128)
    requires
        forall|j: int| 0 <= j < s.len() ==> s[j].id != id,
    ensures
        spec_position(s, id).is_none(),
{
}

/// Moving the head of the queue to the front changes nothing.
pub proof fn lemma_move_to_front_of_head(s: Seq<Period>, id: u128)
    requires
        s.len() > 0,
        s[0].id == id,
    ensures
        spec_move_to_front(s, id) == s,
{
    lemma_position_is_first(s, id, 0);
    assert(seq![s[0]] + s.remove(0) =~= s);
}

/// Moving the head of the queue up changes nothing.
pub proof fn lemma_move_up_of_head(s: Seq<Period>, id: u128)
    requires
        s.len() > 0,
        s[0].id == id,
    ensures
        spec_move_up(s, id) == s,
{
    lemma_position_is_first(s, id, 0);
}

/// Moving a period to the front a second time changes nothing more.
pub proof fn lemma_move_to_front_twice(s: Seq<Period>, id: u128)
    ensures
        spec_move_to_front(spec_move_to_front(s, id), id) == spec_move_to_front(s, id),
{
    match spec_position(s, id) {
        Some(i) => {
            let c = choose|c: int| is_first(s, id, c);
            assert(is_first(s, id, c));
            let moved = spec_move_to_front(s, id);
            assert(moved[0] == s[i]);
            lemma_move_to_front_of_head(moved, id);
        },
        None => {},
    }
}

/// An identifier that no period has leaves the queue as it is, whatever is
/// done with it.
pub proof fn lemma_absent_id_is_ignored(s: Seq<Period>, id: u128)
    requires
        forall|j: int| 0 <= j < s.len() ==> s[j].id != id,
    ensures
        spec_remove(s, id) == s,
        spec_move_to_front(s, id) == s,
        spec_move_up(s, id) == s,
    decreases s.len(),
{
    lemma_position_absent(s, id);
    reveal(Seq::filter);
    if s.len() > 0 {
        lemma_absent_id_is_ignored(s.drop_last(), id);
        assert(s.drop_last().push(s.last()) =~= s);
    }
}

/// `uuid::Uuid::new_v4`, read as a number by `uuid::Uuid::as_u128`: a
/// random identifier from the operating system's generator, which is the
/// only thing that can make the call fail. Nothing is claimed of the value,
/// not even that it differs from earlier ones.
#[verifier::external_body]
fn fresh_id() -> (id: u128) {
    uuid::Uuid::new_v4().as_u128()
}

/// The planned work periods in the order in which they will be worked: the
/// head is the current one.
#[derive(Debug)]
pub struct TaskQueue {
    periods: VecDeque<Period>,
}

impl View for TaskQueue {
    type V = Seq<Period>;

    closed spec fn view(&self) -> Seq<Period> {
        self.periods@
    }
}

impl TaskQueue {
    pub fn new() -> (r: TaskQueue)
        ensures
            r@ == Seq::<Period>::empty(),
    {
        TaskQueue { periods: VecDeque::new() }
    }

    pub fn len(&self) -> (r: usize)
        ensures
            r == self@.len(),
    {
        self.periods.len()
    }

    /// The period at place `i`, counted from the head.
    pub fn get(&self, i: usize) -> (r: Option<&Period>)
        ensures
            r == (if i < self@.len() {
                Some(&self@[i as int])
            } else {
                None
            }),
    {
        if i < self.periods.len() {
            Some(&self.periods[i])
        } else {
            None
        }
    }

    /// The current period: the head of the queue.
    pub fn front(&self) -> (r: Option<&Period>)
        ensures
            r == (if self@.len() > 0 {
                Some(&self@[0])
            } else {
                None
            }),
    {
        self.get(0)
    }

    /// The first place that holds a period with `id`.
    pub fn position(&self, id: u128) -> (r: Option<usize>)
        ensures
            match r {
                Some(i) => spec_position(self@, id) == Some(i as int) && i < self@.len(),
                None => spec_position(self@, id).is_none(),
            },
    {
        let n: usize = self.periods.len();
        let mut i: usize = 0;
        while i < n
            invariant
                i <= n,
                n == self@.len(),
                forall|j: int| 0 <= j < i ==> self@[j].id != id,
            decreases n - i,
        {
            if self.periods[i].id == id {
                proof {
                    lemma_position_is_first(self@, id, i as int);
                }
                return Some(i);
            }
            i = i + 1;
        }
        proof {
            lemma_position_absent(self@, id);
        }
        None
    }

    /// Adds one period named `name` for each of `ids`, in their order, at
    /// the back of the queue.
    pub fn enqueue_with_ids(&mut self, name: &str, ids: &Vec<u128>)
        ensures
            spec_enqueued(old(self)@, final(self)@, name@, ids@),
    {
        let n: usize = ids.len();
        let mut i: usize = 0;
        assert(self@.subrange(0, self@.len() as int) =~= self@);
        while i < n
            invariant
                i <= n,
                n == ids@.len(),
                spec_enqueued(old(self)@, self@, name@, ids@.subrange(0, i as int)),
            decreases n - i,
        {
            let ghost before = self@;
            self.periods.push_back(Period { id: ids[i], name: name.to_owned() });
            proof {
                let start = old(self)@.len() as int;
                let added = ids@.subrange(0, i as int + 1);
                assert(self@.subrange(0, start) =~= before.subrange(0, start));
                assert forall|j: int| start <= j < self@.len() implies (#[trigger] self@[j]).id
                    == added[j - start] && self@[j].name@ == name@ by {
                    if j < start + i {
                        assert(self@[j] == before[j]);
                        assert(ids@.subrange(0, i as int)[j - start] == added[j - start]);
                    }
                }
            }
            i = i + 1;
        }
        assert(ids@.subrange(0, n as int) =~= ids@);
    }

    /// Adds `count` periods named `name` at the back of the queue, each with
    /// an identifier of its own making; none for a `count` below one.
    pub fn enqueue_many(&mut self, name: &str, count: i64)
        ensures
            exists|ids: Seq<u128>|
                ids.len() == (if count > 0 {
                    count as int
                } else {
                    0
                }) && #[trigger] spec_enqueued(old(self)@, final(self)@, name@, ids),
    {
        let mut ids: Vec<u128> = Vec::new();
        let mut i: i64 = 0;
        while i < count
            invariant
                0 <= i,
                count > 0 ==> i <= count,
                count <= 0 ==> i == 0,
                ids@.len() == i,
            decreases count - i,
        {
            ids.push(fresh_id());
            i = i + 1;
        }
        self.enqueue_with_ids(name, &ids);
        assert(spec_enqueued(old(self)@, self@, name@, ids@));
    }

    /// Takes out every period that has `id`.
    pub fn remove(&mut self, id: u128)
        ensures
            final(self)@ == spec_remove(old(self)@, id),
    {
        let ghost keep = |p: Period| p.id != id;
        let mut kept: VecDeque<Period> = VecDeque::new();
        let mut done: Ghost<int> = Ghost(0);
        assert(old(self)@.subrange(0, 0) =~= Seq::<Period>::empty());
        assert(old(self)@.subrange(0, old(self)@.len() as int) =~= old(self)@);
        while self.periods.len() > 0
            invariant
                0 <= done@ <= old(self)@.len(),
                self@ == old(self)@.subrange(done@, old(self)@.len() as int),
                kept@ == old(self)@.subrange(0, done@).filter(keep),
                keep == |p: Period| p.id != id,
            decreases self@.len(),
        {
            let ghost rest = self@;
            let popped = self.periods.pop_front();
            proof {
                let head = old(self)@.subrange(0, done@);
                let one = seq![old(self)@[done@]];
                assert(rest[0] == old(self)@[done@]);
                assert(old(self)@.subrange(0, done@ + 1) =~= head + one);
                assert(self@ =~= old(self)@.subrange(done@ + 1, old(self)@.len() as int));
                reveal_with_fuel(Seq::filter, 2);
                assert(one.drop_last() =~= Seq::<Period>::empty());
                assert(one.filter(keep) =~= if keep(one[0]) {
                    one
                } else {
                    Seq::<Period>::empty()
                });
                assert((head + one).filter(keep) == head.filter(keep) + one.filter(keep));
            }
            match popped {
                Some(p) => {
                    if p.id != id {
                        kept.push_back(p);
                    }
                },
                None => {},
            }
            proof {
                done@ = done@ + 1;
            }
            assert(kept@ =~= old(self)@.subrange(0, done@).filter(keep));
        }
        self.periods = kept;
        assert(old(self)@.subrange(0, done@) =~= old(self)@);
    }

    /// Moves the first period that has `id` to the head of the queue.
    pub fn move_to_front(&mut self, id: u128)
        ensures
            final(self)@ == spec_move_to_front(old(self)@, id),
    {
        match self.position(id) {
            Some(i) => {
                match self.periods.remove(i) {
                    Some(p) => {
                        self.periods.push_front(p);
                    },
                    None => {},
                }
            },
            None => {},
        }
    }

    /// Swaps the first period that has `id` with the one before it.
    pub fn move_up(&mut self, id: u128)
        ensures
            final(self)@ == spec_move_up(old(self)@, id),
    {
        match self.position(id) {
            Some(i) => {
                if i > 0 {
                    match self.periods.remove(i) {
                        Some(p) => {
                            self.periods.insert(i - 1, p);
                        },
                        None => {},
                    }
                    assert(self@ =~= old(self)@.update(i - 1, old(self)@[i as int]).update(
                        i as int,
                        old(self)@[i - 1],
                    ));
                }
            },
            None => {},
        }
    }

    /// Takes the head off the queue and returns it; nothing on an empty queue.
    pub fn complete_front(&mut self) -> (r: Option<Period>)
        ensures
            match r {
                Some(p) => old(self)@.len() > 0 && p == old(self)@[0] && final(self)@ == old(
                    self,
                )@.subrange(1, old(self)@.len() as int),
                None => old(self)@.len() == 0 && final(self)@ == old(self)@,
            },
    {
        self.periods.pop_front()
    }
}

} // verus!

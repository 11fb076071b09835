//! What holds of a whole walk through the databases of an environment.

use crate::database::Handles;
use crate::error::{MdbError, MDB_CORRUPTED, MDB_DBS_FULL, MDB_NOTFOUND};
use crate::size::{
    SizeCall, SizePhase, SizeReply, SizeStep, Stat, WalkCall, WalkReply, WalkState, WalkStep,
    META_PAGES,
};
use crate::txn::BeginTxn;
use vstd::prelude::*;

verus! {

/// Where a walk is after the given replies, one after the other.
pub open spec fn walked(step: WalkStep, replies: Seq<WalkReply>) -> WalkStep
    decreases replies.len(),
{
    if replies.len() == 0 {
        step
    } else {
        match step {
            WalkStep::Call { walk, .. } => walked(walk.next(replies[0]), replies.drop_first()),
            WalkStep::Done(_) => step,
        }
    }
}

/// The handle that a step asks to close, if it does.
pub open spec fn asks_to_close(step: WalkStep) -> Seq<u32> {
    match step {
        WalkStep::Call { call: WalkCall::CloseDbi { dbi, .. }, .. } => seq![dbi],
        _ => seq![],
    }
}

/// The handles that a walk asks to close after this step, on the way that the replies lead.
pub open spec fn closed_on_the_way(step: WalkStep, replies: Seq<WalkReply>) -> Seq<u32>
    decreases replies.len(),
{
    if replies.len() == 0 {
        seq![]
    } else {
        match step {
            WalkStep::Call { walk, .. } => asks_to_close(walk.next(replies[0]))
                + closed_on_the_way(walk.next(replies[0]), replies.drop_first()),
            WalkStep::Done(_) => seq![],
        }
    }
}

/// The handle that was opened to measure a database, when the reply tells the measure and the
/// handle was not open before.
pub open spec fn measured_and_new(walk: WalkState, reply: WalkReply) -> Seq<u32> {
    match (walk.phase, reply) {
        (
            SizePhase::StatNamed { dbi, .. },
            WalkReply::Stat { code, databases, .. },
        ) => if code == 0 && !databases.dbis.contains(dbi) {
            seq![dbi]
        } else {
            seq![]
        },
        _ => seq![],
    }
}

/// The handles that were opened on the way to measure a database, and were not open before.
pub open spec fn measured_on_the_way(step: WalkStep, replies: Seq<WalkReply>) -> Seq<u32>
    decreases replies.len(),
{
    if replies.len() == 0 {
        seq![]
    } else {
        match step {
            WalkStep::Call { walk, .. } => measured_and_new(walk, replies[0])
                + measured_on_the_way(walk.next(replies[0]), replies.drop_first()),
            WalkStep::Done(_) => seq![],
        }
    }
}

/// Each reply is one to the call that was made, and one that the walk can go on with.
pub open spec fn all_accepted(step: WalkStep, replies: Seq<WalkReply>) -> bool
    decreases replies.len(),
{
    if replies.len() == 0 {
        true
    } else {
        match step {
            WalkStep::Call { walk, .. } => walk.accepts(replies[0]) && all_accepted(
                walk.next(replies[0]),
                replies.drop_first(),
            ),
            WalkStep::Done(_) => false,
        }
    }
}

/// What a walk meets under a key of the unnamed database.
pub struct Visit {
    pub key: Seq<u8>,
    /// What `mdb_dbi_open` returns with, and the handle that it stores.
    pub code: i32,
    pub dbi: u32,
    /// What `mdb_stat` tells of the database.
    pub stat: Stat,
}

impl Visit {
    /// Whether there is a database of this name, and it was opened.
    pub open spec fn is_database(self) -> bool {
        !self.key.contains(0u8) && self.code == 0
    }

    /// Whether it was refused to say if there is a database of this name.
    pub open spec fn is_refused(self) -> bool {
        !self.key.contains(0u8) && self.code != 0 && !crate::size::is_no_database(self.code)
    }

    /// What it adds to the size of the environment.
    pub open spec fn size(self) -> int {
        if self.is_database() {
            self.stat.size()
        } else {
            0
        }
    }

    /// The handle that has to be closed again, if there is one.
    pub open spec fn to_close(self, databases: Handles) -> Seq<u32> {
        if self.is_database() && !databases.dbis.contains(self.dbi) {
            seq![self.dbi]
        } else {
            seq![]
        }
    }

    /// The replies of LMDB from this key to the next.
    pub open spec fn replies(self, databases: Handles) -> Seq<WalkReply> {
        let key = seq![WalkReply::Key { code: 0, key: self.key }];
        let open = seq![WalkReply::Dbi { code: self.code, dbi: self.dbi }];
        let stat = seq![WalkReply::Stat { code: 0, stat: self.stat, databases }];
        if self.key.contains(0u8) {
            key
        } else if self.code != 0 {
            key + open
        } else if databases.dbis.contains(self.dbi) {
            key + open + stat
        } else {
            key + open + stat + seq![WalkReply::Closed]
        }
    }
}

/// What LMDB tells of the pages of a data file, in one transaction.
pub struct Pages {
    /// The transaction.
    pub txn_id: usize,
    /// The last page of the file.
    pub last_pgno: usize,
    /// The free list.
    pub free_list: Stat,
    /// The number of pages that each record of the free list lists.
    pub listed: Seq<usize>,
}

/// The sum of some numbers of pages.
pub open spec fn sum(counts: Seq<usize>) -> int
    decreases counts.len(),
{
    if counts.len() == 0 {
        0
    } else {
        counts[0] + sum(counts.drop_first())
    }
}

/// The replies of LMDB from the first record of the free list to the end.
pub open spec fn listed_replies(listed: Seq<usize>) -> Seq<WalkReply>
    decreases listed.len(),
{
    if listed.len() == 0 {
        seq![WalkReply::FreePages { code: MDB_NOTFOUND, count: 0 }]
    } else {
        seq![WalkReply::FreePages { code: 0, count: listed[0] }] + listed_replies(
            listed.drop_first(),
        )
    }
}

/// So many pages of the given size, unless there are less than none.
pub open spec fn pages_size(pages: int, psize: u32) -> Result<int, MdbError> {
    if pages < 0 {
        Err(MdbError { code: MDB_CORRUPTED })
    } else {
        Ok(pages * psize)
    }
}

impl Pages {
    /// The number of pages that databases use: they are no meta pages, not of the free list
    /// and not listed in it.
    pub open spec fn used(self) -> int {
        self.last_pgno + 1 - META_PAGES - self.free_list.pages() - sum(self.listed)
    }

    /// The size of the pages that databases use.
    pub open spec fn size(self) -> Result<int, MdbError> {
        pages_size(self.used(), self.free_list.psize)
    }

    /// The replies of LMDB while the pages are counted.
    pub open spec fn replies(self) -> Seq<WalkReply> {
        seq![
            WalkReply::Info {
                last_pgno: self.last_pgno,
                last_txn_id: self.txn_id,
                txn_id: self.txn_id,
            },
            WalkReply::FreeStat { code: 0, stat: self.free_list },
            WalkReply::Cursor { code: 0 },
        ] + listed_replies(self.listed)
    }

    /// The pages can be counted.
    pub open spec fn can_be_counted(self) -> bool {
        self.size() matches Ok(size) && size <= u64::MAX
    }
}

/// What the visits add to the size of the environment.
pub open spec fn visits_size(visits: Seq<Visit>) -> int
    decreases visits.len(),
{
    if visits.len() == 0 {
        0
    } else {
        visits[0].size() + visits_size(visits.drop_first())
    }
}

/// What a walk tells that has measured `size` bytes before the given visits: up to the first
/// that is refused, they add up.
pub open spec fn visits_outcome(size: int, visits: Seq<Visit>, pages: Pages) -> Result<
    int,
    MdbError,
>
    decreases visits.len(),
{
    if visits.len() == 0 {
        Ok(size)
    } else if visits[0].is_refused() {
        if visits[0].code == MDB_DBS_FULL {
            pages.size()
        } else {
            Err(MdbError { code: visits[0].code })
        }
    } else {
        visits_outcome(size + visits[0].size(), visits.drop_first(), pages)
    }
}

/// The handles that have to be closed again, up to the first visit that is refused.
pub open spec fn visits_to_close(
    visits: Seq<Visit>,
    databases: Handles,
) -> Seq<u32>
    decreases visits.len(),
{
    if visits.len() == 0 || visits[0].is_refused() {
        seq![]
    } else {
        visits[0].to_close(databases) + visits_to_close(visits.drop_first(), databases)
    }
}

/// The replies of LMDB from the first key on.
pub open spec fn visits_replies(
    visits: Seq<Visit>,
    databases: Handles,
    pages: Pages,
) -> Seq<WalkReply>
    decreases visits.len(),
{
    if visits.len() == 0 {
        seq![WalkReply::Key { code: MDB_NOTFOUND, key: seq![] }]
    } else if visits[0].is_refused() {
        visits[0].replies(databases) + if visits[0].code == MDB_DBS_FULL {
            pages.replies()
        } else {
            seq![]
        }
    } else {
        visits[0].replies(databases) + visits_replies(visits.drop_first(), databases, pages)
    }
}

/// The numbers of a walk that has measured `size` bytes before the given visits fit their
/// integers.
pub open spec fn visits_can_be_counted(size: int, visits: Seq<Visit>, pages: Pages) -> bool
    decreases visits.len(),
{
    if visits.len() == 0 {
        true
    } else if visits[0].is_refused() {
        visits[0].code == MDB_DBS_FULL ==> pages.can_be_counted()
    } else {
        &&& visits[0].is_database() ==> visits[0].stat.pages() <= usize::MAX && size
            + visits[0].size() <= u64::MAX
        &&& visits_can_be_counted(size + visits[0].size(), visits.drop_first(), pages)
    }
}

/// The replies of LMDB to a walk through an environment whose unnamed database is `main`.
pub open spec fn walk_replies(
    main: Stat,
    txn: usize,
    dbi: u32,
    visits: Seq<Visit>,
    databases: Handles,
    pages: Pages,
) -> Seq<WalkReply> {
    seq![
        WalkReply::EnvStat { code: 0, stat: main },
        WalkReply::Txn { code: 0, txn },
        WalkReply::Dbi { code: 0, dbi },
        WalkReply::Cursor { code: 0 },
    ] + visits_replies(visits, databases, pages)
}

/// Replies can be followed in two goes.
proof fn lemma_walked_on(step: WalkStep, first: Seq<WalkReply>, rest: Seq<WalkReply>)
    ensures
        walked(step, first + rest) == walked(walked(step, first), rest),
        closed_on_the_way(step, first + rest) == closed_on_the_way(step, first)
            + closed_on_the_way(walked(step, first), rest),
        all_accepted(step, first) && all_accepted(walked(step, first), rest) ==> all_accepted(
            step,
            first + rest,
        ),
    decreases first.len(),
{
    if first.len() == 0 {
        assert(first + rest =~= rest);
        assert(closed_on_the_way(step, first) + closed_on_the_way(step, rest)
            =~= closed_on_the_way(step, rest));
    } else {
        assert((first + rest).drop_first() =~= first.drop_first() + rest);
        match step {
            WalkStep::Call { walk, call } => {
                lemma_walked_on(walk.next(first[0]), first.drop_first(), rest);
                assert(closed_on_the_way(step, first + rest) =~= closed_on_the_way(step, first)
                    + closed_on_the_way(walked(step, first), rest));
            },
            WalkStep::Done(_) => {
                assert(closed_on_the_way(step, first) + closed_on_the_way(step, rest) =~= seq![]);
            },
        }
    }
}

/// Whatever LMDB replies and however the walk ends, the handles that it asks to close are, in
/// order, those that were opened to measure a database, gave its measure, and were not open
/// before.
pub proof fn law_walk_closes_what_it_opened(step: WalkStep, replies: Seq<WalkReply>)
    requires
        all_accepted(step, replies),
    ensures
        closed_on_the_way(step, replies) == measured_on_the_way(step, replies),
    decreases replies.len(),
{
    if replies.len() > 0 {
        match step {
            WalkStep::Call { walk, .. } => {
                law_walk_closes_what_it_opened(walk.next(replies[0]), replies.drop_first());
            },
            WalkStep::Done(_) => {},
        }
    }
}

/// Where a visit leads: on to the next key with what it holds added and what it opened
/// closed, or, when it is refused, to the pages or to the error.
proof fn lemma_visit(walk: WalkState, txn: usize, visit: Visit, databases: Handles)
    requires
        walk.phase == (SizePhase::NextKey { txn }),
    ensures
        ({
            let step = WalkStep::Call { walk, call: WalkCall::NextKey };
            let after = WalkState { size: walk.size + visit.size(), ..walk };
            let replies = visit.replies(databases);
            &&& walked(step, replies) == if !visit.is_refused() {
                WalkStep::Call { walk: after, call: WalkCall::NextKey }
            } else if visit.code == MDB_DBS_FULL {
                walk.calls(
                    SizePhase::CountPages { txn },
                    WalkCall::Info { env: walk.env, txn },
                )
            } else {
                WalkStep::Done(Err(MdbError { code: visit.code }))
            }
            &&& closed_on_the_way(step, replies) == visit.to_close(databases)
            &&& databases.env == walk.env && (visit.is_database() ==> visit.stat.pages()
                <= usize::MAX && walk.size + visit.size() <= u64::MAX) ==> all_accepted(
                step,
                replies,
            )
        }),
{
    reveal_with_fuel(walked, 5);
    reveal_with_fuel(closed_on_the_way, 5);
    reveal_with_fuel(all_accepted, 5);
    let replies = visit.replies(databases);
    let after = replies.drop_first();
    assert(after.len() > 0 ==> after[0] == replies[1]);
    let third = after.drop_first();
    assert(replies.len() > 2 ==> third[0] == replies[2]);
    let fourth = third.drop_first();
    assert(replies.len() > 3 ==> fourth[0] == replies[3]);
    let step = WalkStep::Call { walk, call: WalkCall::NextKey };
    assert(closed_on_the_way(step, replies) =~= visit.to_close(databases));
}

/// No number of pages is negative.
proof fn lemma_sum(counts: Seq<usize>)
    ensures
        sum(counts) >= 0,
    decreases counts.len(),
{
    if counts.len() > 0 {
        lemma_sum(counts.drop_first());
    }
}

/// The pages that the free list lists are taken off.
proof fn lemma_listed(walk: WalkState, pages: usize, psize: u32, listed: Seq<usize>)
    requires
        walk.phase == (SizePhase::FreePages { pages, psize }),
    ensures
        ({
            let step = WalkStep::Call { walk, call: WalkCall::NextFree };
            let replies = listed_replies(listed);
            let size = pages_size(pages - sum(listed), psize);
            &&& walked(step, replies) == WalkStep::Done(size)
            &&& closed_on_the_way(step, replies) == Seq::<u32>::empty()
            &&& (size matches Ok(size) && size <= u64::MAX) ==> all_accepted(step, replies)
        }),
    decreases listed.len(),
{
    let step = WalkStep::Call { walk, call: WalkCall::NextFree };
    let replies = listed_replies(listed);
    if listed.len() == 0 {
        reveal_with_fuel(walked, 2);
        reveal_with_fuel(closed_on_the_way, 2);
        reveal_with_fuel(all_accepted, 2);
        assert(closed_on_the_way(step, replies) =~= seq![]);
    } else {
        let rest = listed.drop_first();
        lemma_sum(rest);
        assert(replies.drop_first() =~= listed_replies(rest));
        assert(replies[0] == WalkReply::FreePages { code: 0, count: listed[0] });
        if pages < listed[0] {
            assert(walk.next(replies[0]) == crate::size::contradiction());
            reveal_with_fuel(walked, 2);
            reveal_with_fuel(closed_on_the_way, 2);
            assert(closed_on_the_way(step, replies) =~= seq![]);
        } else {
            let left = (pages - listed[0]) as usize;
            let after = WalkState { phase: SizePhase::FreePages { pages: left, psize }, ..walk };
            lemma_listed(after, left, psize, rest);
            assert(closed_on_the_way(step, replies) =~= seq![]);
        }
    }
}

/// The pages are counted.
proof fn lemma_pages(walk: WalkState, txn: usize, call: WalkCall, pages: Pages)
    requires
        walk.phase == (SizePhase::CountPages { txn }),
    ensures
        ({
            let step = WalkStep::Call { walk, call };
            &&& walked(step, pages.replies()) == WalkStep::Done(pages.size())
            &&& closed_on_the_way(step, pages.replies()) == Seq::<u32>::empty()
            &&& pages.can_be_counted() ==> all_accepted(step, pages.replies())
        }),
{
    let step = WalkStep::Call { walk, call };
    let rest = listed_replies(pages.listed);
    let first = seq![
        WalkReply::Info {
            last_pgno: pages.last_pgno,
            last_txn_id: pages.txn_id,
            txn_id: pages.txn_id,
        },
        WalkReply::FreeStat { code: 0, stat: pages.free_list },
        WalkReply::Cursor { code: 0 },
    ];
    reveal_with_fuel(walked, 4);
    reveal_with_fuel(closed_on_the_way, 4);
    reveal_with_fuel(all_accepted, 4);
    let second = first.drop_first();
    assert(second[0] == first[1]);
    let third = second.drop_first();
    assert(third[0] == first[2]);
    lemma_sum(pages.listed);
    lemma_walked_on(step, first, rest);
    assert(closed_on_the_way(step, first) =~= seq![]);
    let file = pages.last_pgno + 1 - META_PAGES;
    if file >= 0 && file >= pages.free_list.pages() {
        let left = (file - pages.free_list.pages()) as usize;
        let psize = pages.free_list.psize;
        let after = WalkState { phase: SizePhase::FreePages { pages: left, psize }, ..walk };
        lemma_listed(after, left, psize, pages.listed);
        assert(walked(step, first) == WalkStep::Call { walk: after, call: WalkCall::NextFree });
        assert(closed_on_the_way(step, pages.replies()) =~= seq![]);
    } else {
        assert(walked(step, first) == crate::size::contradiction());
        assert(closed_on_the_way(step, pages.replies()) =~= seq![]);
    }
}

/// The visits of a walk add up, until one is refused.
proof fn lemma_visits(
    walk: WalkState,
    txn: usize,
    visits: Seq<Visit>,
    databases: Handles,
    pages: Pages,
)
    requires
        walk.phase == (SizePhase::NextKey { txn }),
    ensures
        ({
            let step = WalkStep::Call { walk, call: WalkCall::NextKey };
            let replies = visits_replies(visits, databases, pages);
            &&& walked(step, replies) == WalkStep::Done(visits_outcome(walk.size, visits, pages))
            &&& closed_on_the_way(step, replies) == visits_to_close(visits, databases)
            &&& databases.env == walk.env && visits_can_be_counted(walk.size, visits, pages)
                ==> all_accepted(step, replies)
        }),
    decreases visits.len(),
{
    let step = WalkStep::Call { walk, call: WalkCall::NextKey };
    if visits.len() == 0 {
        reveal_with_fuel(walked, 2);
        reveal_with_fuel(closed_on_the_way, 2);
        reveal_with_fuel(all_accepted, 2);
        assert(closed_on_the_way(step, visits_replies(visits, databases, pages)) =~= seq![]);
    } else {
        let visit = visits[0];
        lemma_visit(walk, txn, visit, databases);
        if !visit.is_refused() {
            let rest = visits.drop_first();
            let after = WalkState { size: walk.size + visit.size(), ..walk };
            lemma_visits(after, txn, rest, databases, pages);
            lemma_walked_on(step, visit.replies(databases), visits_replies(rest, databases, pages));
        } else if visit.code == MDB_DBS_FULL {
            let counting = WalkState { phase: SizePhase::CountPages { txn }, ..walk };
            lemma_pages(counting, txn, WalkCall::Info { env: walk.env, txn }, pages);
            lemma_walked_on(step, visit.replies(databases), pages.replies());
            assert(closed_on_the_way(step, visits_replies(visits, databases, pages)) =~= seq![]);
        } else {
            assert(visits_replies(visits, databases, pages) =~= visit.replies(databases));
        }
    }
}

/// What a walk comes to, whatever it meets: the size of the unnamed database and of every
/// database that the unnamed one names; when it is refused to open one for want of a slot, the
/// size of the pages in use; when it is refused for another reason, that error.
///
/// On the way, every handle that was opened to measure a database is closed again, in the same
/// order, and no handle that was open before. A walk can be finished whenever its numbers fit
/// their integers.
pub proof fn law_walk_outcome(
    env: usize,
    main: Stat,
    txn: usize,
    dbi: u32,
    visits: Seq<Visit>,
    databases: Handles,
    pages: Pages,
)
    ensures
        ({
            let start = crate::size::walk_start(env);
            let replies = walk_replies(main, txn, dbi, visits, databases, pages);
            &&& walked(start, replies) == WalkStep::Done(
                visits_outcome(main.size(), visits, pages),
            )
            &&& closed_on_the_way(start, replies) == visits_to_close(visits, databases)
            &&& databases.env == env && main.pages() <= usize::MAX && main.size() <= u64::MAX
                && visits_can_be_counted(main.size(), visits, pages) ==> all_accepted(
                start,
                replies,
            )
        }),
{
    let start = crate::size::walk_start(env);
    let first = seq![
        WalkReply::EnvStat { code: 0, stat: main },
        WalkReply::Txn { code: 0, txn },
        WalkReply::Dbi { code: 0, dbi },
        WalkReply::Cursor { code: 0 },
    ];
    let walk = WalkState { env, phase: SizePhase::NextKey { txn }, size: main.size() };
    reveal_with_fuel(walked, 5);
    reveal_with_fuel(closed_on_the_way, 5);
    reveal_with_fuel(all_accepted, 5);
    let second = first.drop_first();
    assert(second[0] == first[1]);
    let third = second.drop_first();
    assert(third[0] == first[2]);
    let fourth = third.drop_first();
    assert(fourth[0] == first[3]);
    assert(walked(start, first) == WalkStep::Call { walk, call: WalkCall::NextKey });
    assert(closed_on_the_way(start, first) =~= seq![]);
    lemma_visits(walk, txn, visits, databases, pages);
    lemma_walked_on(start, first, visits_replies(visits, databases, pages));
}

/// When no database is refused for want of a slot, a walk tells a size if, and only if, of
/// every key it was told whether it names a database; and the size is that of all of them.
pub proof fn law_size_counts_every_database(size: int, visits: Seq<Visit>, pages: Pages)
    requires
        forall|i: int|
            0 <= i < visits.len() && (#[trigger] visits[i]).is_refused() ==> visits[i].code
                != MDB_DBS_FULL,
    ensures
        visits_outcome(size, visits, pages) is Ok <==> forall|i: int|
            0 <= i < visits.len() ==> !(#[trigger] visits[i]).is_refused(),
        visits_outcome(size, visits, pages) matches Ok(counted) ==> counted == size + visits_size(
            visits,
        ),
    decreases visits.len(),
{
    if visits.len() > 0 {
        let rest = visits.drop_first();
        assert forall|i: int| 0 <= i < rest.len() implies #[trigger] rest[i] == visits[i + 1] by {}
        if !visits[0].is_refused() {
            law_size_counts_every_database(size + visits[0].size(), rest, pages);
            if forall|i: int| 0 <= i < rest.len() ==> !(#[trigger] rest[i]).is_refused() {
                assert forall|i: int| 0 <= i < visits.len() implies !(
                #[trigger] visits[i]).is_refused() by {
                    if i > 0 {
                        assert(visits[i] == rest[i - 1]);
                    }
                }
            }
            if forall|i: int| 0 <= i < visits.len() ==> !(#[trigger] visits[i]).is_refused() {
                assert forall|i: int| 0 <= i < rest.len() implies !(
                #[trigger] rest[i]).is_refused() by {
                    assert(!visits[i + 1].is_refused());
                }
            }
        }
    }
}

/// The number of pages of some databases.
pub open spec fn databases_pages(databases: Seq<Stat>) -> int
    decreases databases.len(),
{
    if databases.len() == 0 {
        0
    } else {
        databases[0].pages() + databases_pages(databases.drop_first())
    }
}

/// The size of some databases.
pub open spec fn databases_size(databases: Seq<Stat>) -> int
    decreases databases.len(),
{
    if databases.len() == 0 {
        0
    } else {
        databases[0].size() + databases_size(databases.drop_first())
    }
}

/// Databases with pages of one size are as large as their pages.
proof fn lemma_databases(databases: Seq<Stat>, psize: u32)
    requires
        forall|i: int| 0 <= i < databases.len() ==> (#[trigger] databases[i]).psize == psize,
    ensures
        databases_pages(databases) >= 0,
        databases_size(databases) == databases_pages(databases) * psize,
    decreases databases.len(),
{
    if databases.len() == 0 {
        assert(0 * psize == 0) by (nonlinear_arith);
    } else {
        let rest = databases.drop_first();
        assert forall|i: int| 0 <= i < rest.len() implies (#[trigger] rest[i]).psize == psize by {
            assert(rest[i] == databases[i + 1]);
        }
        lemma_databases(rest, psize);
        let a = databases[0].pages();
        let b = databases_pages(rest);
        assert(databases[0].psize == psize);
        assert((a + b) * psize == a * psize + b * psize) by (nonlinear_arith);
    }
}

/// Counting the pages in use gives the size of all the databases, wherever every page of the
/// data file is a meta page, or the free list's, or listed in it, or a database's.
pub proof fn law_pages_in_use_are_the_databases(pages: Pages, databases: Seq<Stat>)
    requires
        pages.last_pgno + 1 == META_PAGES + pages.free_list.pages() + sum(pages.listed)
            + databases_pages(databases),
        forall|i: int|
            0 <= i < databases.len() ==> (#[trigger] databases[i]).psize
                == pages.free_list.psize,
    ensures
        pages.size() == Ok::<int, MdbError>(databases_size(databases)),
{
    lemma_databases(databases, pages.free_list.psize);
}

/// The error that a reply tells of. That there are no more keys, or no more records, is none.
pub open spec fn reply_error(reply: WalkReply) -> Option<MdbError> {
    let outcome = match reply {
        WalkReply::EnvStat { code, .. } => crate::error::mdb_outcome(code),
        WalkReply::Txn { code, .. } => crate::error::mdb_outcome(code),
        WalkReply::Dbi { code, .. } => crate::error::mdb_outcome(code),
        WalkReply::Cursor { code } => crate::error::mdb_outcome(code),
        WalkReply::Key { code, .. } => if code == MDB_NOTFOUND {
            Ok(())
        } else {
            crate::error::mdb_outcome(code)
        },
        WalkReply::Stat { code, .. } => crate::error::mdb_outcome(code),
        WalkReply::Closed => Ok(()),
        WalkReply::Info { .. } => Ok(()),
        WalkReply::FreeStat { code, .. } => crate::error::mdb_outcome(code),
        WalkReply::FreePages { code, .. } => if code == MDB_NOTFOUND {
            Ok(())
        } else {
            crate::error::mdb_outcome(code)
        },
    };
    match outcome {
        Ok(()) => None,
        Err(error) => Some(error),
    }
}

/// A walk ends with the first error that LMDB reports, and with no other but that of pages
/// which contradict each other. When a key is tried as a name, it is no error that LMDB knows
/// no database of that name, or has no slot left to open one in.
pub proof fn law_walk_ends_with_the_error(walk: WalkState, reply: WalkReply)
    requires
        walk.accepts(reply),
    ensures
        ({
            let tolerated = walk.phase is OpenNamed && (reply_error(reply) matches Some(error)
                && (crate::size::is_no_database(error.code) || error.code == MDB_DBS_FULL));
            match (reply_error(reply), walk.next(reply)) {
                (Some(error), WalkStep::Done(outcome)) => outcome == Err::<int, MdbError>(error),
                (Some(_), WalkStep::Call { .. }) => tolerated,
                (None, WalkStep::Done(Err(error))) => error.code == MDB_CORRUPTED && (
                walk.phase is CountPages || walk.phase is FreeStat || walk.phase is FreePages),
                (None, _) => true,
            }
        }),
{
}

/// When the environment was written to since the transaction began, the pages are not counted
/// but the walk starts over.
pub proof fn law_pages_are_those_of_the_transaction(
    walk: WalkState,
    txn: usize,
    last_pgno: usize,
    last_txn_id: usize,
    txn_id: usize,
)
    requires
        walk.phase == (SizePhase::CountPages { txn }),
        last_txn_id != txn_id,
    ensures
        walk.next(WalkReply::Info { last_pgno, last_txn_id, txn_id }) == crate::size::walk_start(
            walk.env,
        ),
{
}

/// What the databases among some visits use, in leaf, branch and overflow pages.
pub open spec fn named_bytes(visits: Seq<Visit>) -> int
    decreases visits.len(),
{
    if visits.len() == 0 {
        0
    } else {
        let visit = visits[0];
        let stat = visit.stat;
        named_bytes(visits.drop_first()) + if visit.code == 0 && !visit.key.contains(0u8) {
            (stat.leaf_pages + stat.branch_pages + stat.overflow_pages) * stat.psize
        } else {
            0
        }
    }
}

/// What the visits add is what the databases among them use.
proof fn lemma_named_bytes(visits: Seq<Visit>)
    ensures
        visits_size(visits) == named_bytes(visits),
    decreases visits.len(),
{
    if visits.len() > 0 {
        lemma_named_bytes(visits.drop_first());
    }
}

/// A walk that meets only the unnamed database tells the bytes of its leaf, branch and
/// overflow pages.
pub proof fn law_unnamed_database_alone(
    env: usize,
    main: Stat,
    txn: usize,
    dbi: u32,
    key: Seq<u8>,
)
    ensures
        walked(
            crate::size::walk_start(env),
            seq![
                WalkReply::EnvStat { code: 0, stat: main },
                WalkReply::Txn { code: 0, txn },
                WalkReply::Dbi { code: 0, dbi },
                WalkReply::Cursor { code: 0 },
                WalkReply::Key { code: (-30798) as i32, key },
            ],
        ) == WalkStep::Done(
            Ok::<int, MdbError>(
                (main.leaf_pages + main.branch_pages + main.overflow_pages) * main.psize,
            ),
        ),
{
    let replies = seq![
        WalkReply::EnvStat { code: 0, stat: main },
        WalkReply::Txn { code: 0, txn },
        WalkReply::Dbi { code: 0, dbi },
        WalkReply::Cursor { code: 0 },
        WalkReply::Key { code: (-30798) as i32, key },
    ];
    reveal_with_fuel(walked, 6);
    let second = replies.drop_first();
    assert(second[0] == replies[1]);
    let third = second.drop_first();
    assert(third[0] == replies[2]);
    let fourth = third.drop_first();
    assert(fourth[0] == replies[3]);
    let fifth = fourth.drop_first();
    assert(fifth[0] == replies[4]);
}

/// A walk to which every key was told to name a database or none tells the bytes of the leaf,
/// branch and overflow pages of the unnamed database and of each that is named.
pub proof fn law_all_databases(
    env: usize,
    main: Stat,
    txn: usize,
    dbi: u32,
    visits: Seq<Visit>,
    databases: Handles,
    pages: Pages,
)
    requires
        forall|i: int|
            0 <= i < visits.len() ==> {
                let visit = #[trigger] visits[i];
                visit.key.contains(0u8) || visit.code == 0 || visit.code == -30798 || visit.code
                    == -30784
            },
    ensures
        walked(
            crate::size::walk_start(env),
            walk_replies(main, txn, dbi, visits, databases, pages),
        ) == WalkStep::Done(
            Ok::<int, MdbError>(
                (main.leaf_pages + main.branch_pages + main.overflow_pages) * main.psize
                    + named_bytes(visits),
            ),
        ),
{
    law_walk_outcome(env, main, txn, dbi, visits, databases, pages);
    law_size_counts_every_database(main.size(), visits, pages);
    assert forall|i: int| 0 <= i < visits.len() implies !(#[trigger] visits[i]).is_refused() by {}
    lemma_named_bytes(visits);
}

/// A walk begins with nothing counted and asks for the environment's own measure.
pub proof fn law_first_step(env: usize)
    ensures
        crate::size::walk_start(env) == (WalkStep::Call {
            walk: WalkState { env, phase: SizePhase::EnvStat, size: 0 },
            call: WalkCall::EnvStat { env },
        }),
{
}

/// The environment's own measure is added, and a transaction begun that only reads.
pub proof fn law_step_from_env_stat(walk: WalkState, code: i32, stat: Stat)
    requires
        walk.phase is EnvStat,
    ensures
        code != 0 ==> walk.next(WalkReply::EnvStat { code, stat }) == WalkStep::Done(
            Err(MdbError { code }),
        ),
        code == 0 ==> walk.next(WalkReply::EnvStat { code, stat }) == (WalkStep::Call {
            walk: WalkState {
                env: walk.env,
                phase: SizePhase::BeginTxn,
                size: walk.size + (stat.leaf_pages + stat.branch_pages + stat.overflow_pages)
                    * stat.psize,
            },
            call: WalkCall::BeginTxn(BeginTxn { env: walk.env, parent: None, flags: 0x20000 }),
        }),
{
}

/// In the transaction the unnamed database is opened, then a cursor on it, then its keys are
/// read.
pub proof fn law_steps_to_the_keys(walk: WalkState, txn: usize, dbi: u32, code: i32)
    ensures
        walk.phase is BeginTxn ==> walk.next(WalkReply::Txn { code, txn }) == if code == 0 {
            WalkStep::Call {
                walk: WalkState { phase: SizePhase::OpenMain { txn }, ..walk },
                call: WalkCall::OpenDbi { txn, name: None, flags: 0 },
            }
        } else {
            WalkStep::Done(Err(MdbError { code }))
        },
        walk.phase == (SizePhase::OpenMain { txn }) ==> walk.next(WalkReply::Dbi { code, dbi })
            == if code == 0 {
            WalkStep::Call {
                walk: WalkState { phase: SizePhase::OpenCursor { txn }, ..walk },
                call: WalkCall::OpenCursor { txn, dbi },
            }
        } else {
            WalkStep::Done(Err(MdbError { code }))
        },
        walk.phase == (SizePhase::OpenCursor { txn }) ==> walk.next(WalkReply::Cursor { code })
            == if code == 0 {
            WalkStep::Call {
                walk: WalkState { phase: SizePhase::NextKey { txn }, ..walk },
                call: WalkCall::NextKey,
            }
        } else {
            WalkStep::Done(Err(MdbError { code }))
        },
{
}

/// A key that holds a NUL is passed over, and any other is tried as a name, all of it, without
/// creating a database. When there are no more keys, what was counted is the size.
pub proof fn law_steps_from_a_key(walk: WalkState, txn: usize, code: i32, key: Seq<u8>)
    requires
        walk.phase == (SizePhase::NextKey { txn }),
    ensures
        ({
            let step = walk.next(WalkReply::Key { code, key });
            &&& code == -30798 ==> step == WalkStep::Done(Ok::<int, MdbError>(walk.size))
            &&& code != -30798 && code != 0 ==> step == WalkStep::Done(Err(MdbError { code }))
            &&& code == 0 && key.contains(0u8) ==> step == (WalkStep::Call {
                walk,
                call: WalkCall::NextKey,
            })
            &&& code == 0 && !key.contains(0u8) ==> step == (WalkStep::Call {
                walk: WalkState { phase: SizePhase::OpenNamed { txn }, ..walk },
                call: WalkCall::OpenDbi { txn, name: Some(key.push(0u8)), flags: 0 },
            })
        }),
{
}

/// A database that opened is measured; what is none is passed over; when there is no slot left
/// the pages are counted; any other code ends the walk.
pub proof fn law_steps_from_a_name(walk: WalkState, txn: usize, code: i32, dbi: u32)
    requires
        walk.phase == (SizePhase::OpenNamed { txn }),
    ensures
        walk.next(WalkReply::Dbi { code, dbi }) == if code == 0 {
            WalkStep::Call {
                walk: WalkState { phase: SizePhase::StatNamed { txn, dbi }, ..walk },
                call: WalkCall::Stat { txn, dbi },
            }
        } else if code == -30798 || code == -30784 {
            WalkStep::Call {
                walk: WalkState { phase: SizePhase::NextKey { txn }, ..walk },
                call: WalkCall::NextKey,
            }
        } else if code == -30791 {
            WalkStep::Call {
                walk: WalkState { phase: SizePhase::CountPages { txn }, ..walk },
                call: WalkCall::Info { env: walk.env, txn },
            }
        } else {
            WalkStep::Done(Err(MdbError { code }))
        },
{
}

/// The measure of a database is added: all its leaf, branch and overflow pages. Its handle is
/// closed if, and only if, it was not open before; and the next key follows.
pub proof fn law_steps_from_a_measure(
    walk: WalkState,
    txn: usize,
    dbi: u32,
    code: i32,
    stat: Stat,
    databases: Handles,
)
    requires
        walk.phase == (SizePhase::StatNamed { txn, dbi }),
    ensures
        ({
            let step = walk.next(WalkReply::Stat { code, stat, databases });
            let size = walk.size + (stat.leaf_pages + stat.branch_pages + stat.overflow_pages)
                * stat.psize;
            &&& code != 0 ==> step == WalkStep::Done(Err(MdbError { code }))
            &&& code == 0 && databases.dbis.contains(dbi) ==> step == (WalkStep::Call {
                walk: WalkState { env: walk.env, phase: SizePhase::NextKey { txn }, size },
                call: WalkCall::NextKey,
            })
            &&& code == 0 && !databases.dbis.contains(dbi) ==> step == (WalkStep::Call {
                walk: WalkState { env: walk.env, phase: SizePhase::CloseNamed { txn }, size },
                call: WalkCall::CloseDbi { env: walk.env, dbi },
            })
        }),
{
}

/// After a handle was closed, the next key follows.
pub proof fn law_step_from_a_close(walk: WalkState, txn: usize)
    requires
        walk.phase == (SizePhase::CloseNamed { txn }),
    ensures
        walk.next(WalkReply::Closed) == (WalkStep::Call {
            walk: WalkState { phase: SizePhase::NextKey { txn }, ..walk },
            call: WalkCall::NextKey,
        }),
{
}

/// Of the pages of the file, two are meta pages. The free list's own pages are taken off, then
/// each number that a record of it tells, and what is left is in use. Where less than nothing
/// would be left, the walk ends with an error.
pub proof fn law_steps_of_the_page_count(
    walk: WalkState,
    txn: usize,
    last_pgno: usize,
    txn_id: usize,
    pages: usize,
    psize: u32,
    code: i32,
    stat: Stat,
    count: usize,
)
    ensures
        walk.phase == (SizePhase::CountPages { txn }) ==> walk.next(
            WalkReply::Info { last_pgno, last_txn_id: txn_id, txn_id },
        ) == if last_pgno == 0 {
            WalkStep::Done(Err(MdbError { code: (-30796) as i32 }))
        } else {
            WalkStep::Call {
                walk: WalkState {
                    phase: SizePhase::FreeStat { txn, pages: (last_pgno - 1) as usize },
                    ..walk
                },
                call: WalkCall::Stat { txn, dbi: 0 },
            }
        },
        walk.phase == (SizePhase::FreeStat { txn, pages }) ==> ({
            let own = stat.leaf_pages + stat.branch_pages + stat.overflow_pages;
            walk.next(WalkReply::FreeStat { code, stat }) == if code != 0 {
                WalkStep::Done(Err(MdbError { code }))
            } else if pages < own {
                WalkStep::Done(Err(MdbError { code: (-30796) as i32 }))
            } else {
                WalkStep::Call {
                    walk: WalkState {
                        phase: SizePhase::FreeCursor {
                            pages: (pages - own) as usize,
                            psize: stat.psize,
                        },
                        ..walk
                    },
                    call: WalkCall::OpenCursor { txn, dbi: 0 },
                }
            }
        }),
        walk.phase == (SizePhase::FreeCursor { pages, psize }) ==> walk.next(
            WalkReply::Cursor { code },
        ) == if code == 0 {
            WalkStep::Call {
                walk: WalkState { phase: SizePhase::FreePages { pages, psize }, ..walk },
                call: WalkCall::NextFree,
            }
        } else {
            WalkStep::Done(Err(MdbError { code }))
        },
        walk.phase == (SizePhase::FreePages { pages, psize }) ==> walk.next(
            WalkReply::FreePages { code, count },
        ) == if code == -30798 {
            WalkStep::Done(Ok::<int, MdbError>(pages * psize))
        } else if code != 0 {
            WalkStep::Done(Err(MdbError { code }))
        } else if pages < count {
            WalkStep::Done(Err(MdbError { code: (-30796) as i32 }))
        } else {
            WalkStep::Call {
                walk: WalkState {
                    phase: SizePhase::FreePages { pages: (pages - count) as usize, psize },
                    ..walk
                },
                call: WalkCall::NextFree,
            }
        },
{
}

/// A measure is taken when the call failed, or when its pages and the size with it can be
/// counted; any key is taken, and any handle.
pub proof fn law_replies_that_are_taken(
    walk: WalkState,
    txn: usize,
    dbi: u32,
    code: i32,
    key: Seq<u8>,
    stat: Stat,
    databases: Handles,
)
    ensures
        ({
            let pages = stat.leaf_pages + stat.branch_pages + stat.overflow_pages;
            let fits = code != 0 || (pages <= usize::MAX && walk.size + pages * stat.psize
                <= u64::MAX);
            &&& walk.phase is EnvStat ==> (walk.accepts(WalkReply::EnvStat { code, stat }) <==> fits)
            &&& walk.phase is StatNamed ==> (walk.accepts(WalkReply::Stat { code, stat, databases })
                <==> fits && databases.env == walk.env)
            &&& walk.phase is BeginTxn ==> walk.accepts(WalkReply::Txn { code, txn })
            &&& walk.phase is OpenMain || walk.phase is OpenNamed ==> walk.accepts(
                WalkReply::Dbi { code, dbi },
            )
            &&& walk.phase is OpenCursor || walk.phase is FreeCursor ==> walk.accepts(
                WalkReply::Cursor { code },
            )
            &&& walk.phase is NextKey ==> walk.accepts(WalkReply::Key { code, key })
            &&& walk.phase is CloseNamed ==> walk.accepts(WalkReply::Closed)
            &&& walk.phase is FreeStat ==> walk.accepts(WalkReply::FreeStat { code, stat })
        }),
{
}

/// While the pages are counted every number is taken, as long as the size that it comes to can
/// be counted.
pub proof fn law_counts_that_are_taken(
    walk: WalkState,
    last_pgno: usize,
    last_txn_id: usize,
    txn_id: usize,
    pages: usize,
    psize: u32,
    code: i32,
    count: usize,
)
    ensures
        walk.phase is CountPages ==> walk.accepts(
            WalkReply::Info { last_pgno, last_txn_id, txn_id },
        ),
        walk.phase == (SizePhase::FreePages { pages, psize }) ==> (walk.accepts(
            WalkReply::FreePages { code, count },
        ) <==> code != -30798 || pages * psize <= u64::MAX),
{
}

/// What a walk says is what it comes to: a size is itself, an error is itself, and a call is
/// made as it is asked for.
pub proof fn law_steps_are_as_they_say(step: SizeStep)
    ensures
        match step {
            SizeStep::Done(Ok(size)) => step@ == WalkStep::Done(Ok::<int, MdbError>(size as int)),
            SizeStep::Done(Err(error)) => step@ == WalkStep::Done(Err(error)),
            SizeStep::Call { walk, call } => {
                &&& step@ matches WalkStep::Call { walk: seen, call: asked }
                &&& seen == walk@
                &&& match call {
                    SizeCall::EnvStat { env } => asked == (WalkCall::EnvStat { env }),
                    SizeCall::BeginTxn(begin) => asked == WalkCall::BeginTxn(begin),
                    SizeCall::OpenDbi(open) => {
                        &&& asked matches WalkCall::OpenDbi { txn, name, flags }
                        &&& txn == open.txn
                        &&& flags == open.flags
                        &&& name is None <==> open.name is None
                        &&& open.name matches Some(bytes) ==> name == Some(bytes@)
                    },
                    SizeCall::OpenCursor { txn, dbi } => asked == (WalkCall::OpenCursor {
                        txn,
                        dbi,
                    }),
                    SizeCall::NextKey => asked is NextKey,
                    SizeCall::Stat { txn, dbi } => asked == (WalkCall::Stat { txn, dbi }),
                    SizeCall::CloseDbi { env, dbi } => asked == (WalkCall::CloseDbi { env, dbi }),
                    SizeCall::Info { env, txn } => asked == (WalkCall::Info { env, txn }),
                    SizeCall::NextFree => asked is NextFree,
                }
            },
        },
{
}

/// A reply is taken as it was given.
pub proof fn law_replies_are_as_they_say(reply: SizeReply)
    ensures
        match reply {
            SizeReply::EnvStat { code, stat } => reply@ == (WalkReply::EnvStat { code, stat }),
            SizeReply::Txn { code, txn } => reply@ == (WalkReply::Txn { code, txn }),
            SizeReply::Dbi { code, dbi } => reply@ == (WalkReply::Dbi { code, dbi }),
            SizeReply::Cursor { code } => reply@ == (WalkReply::Cursor { code }),
            SizeReply::Key { code, key } => reply@ == (WalkReply::Key { code, key: key@ }),
            SizeReply::Stat { code, stat, databases } => reply@ == (WalkReply::Stat {
                code,
                stat,
                databases: databases@,
            }),
            SizeReply::Closed => reply@ is Closed,
            SizeReply::Info { last_pgno, last_txn_id, txn_id } => reply@ == (WalkReply::Info {
                last_pgno,
                last_txn_id,
                txn_id,
            }),
            SizeReply::FreeStat { code, stat } => reply@ == (WalkReply::FreeStat { code, stat }),
            SizeReply::FreePages { code, count } => reply@ == (WalkReply::FreePages {
                code,
                count,
            }),
        },
{
}

} // verus!

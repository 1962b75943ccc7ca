//! Whether running a script's blocks can recurse forever: the blocks that each block
//! runs, through its if instructions and its calls, and a ranking of the blocks

use vstd::prelude::*;

use crate::instruction::{InstrKind, SInstrKind};
use crate::parse::{parsed_done, BlockId, Parsed, SParsed};
use crate::pkg::later_value;
use crate::script_eval::{instr_ranked, ranked};
use crate::shared::Later;

verus! {

/// The block that an instruction runs, if it runs one: an if instruction its block, a
/// call the block of its routine where the routine exists.
pub open spec fn runs_block(p: SParsed, k: SInstrKind) -> Option<int> {
    match k {
        SInstrKind::If { if_block, .. } => Some(if_block as int),
        SInstrKind::Call(t) => if p.routines.contains_key(later_value(t)) {
            Some(p.routines[later_value(t)] as int)
        } else {
            None
        },
        _ => None,
    }
}

/// The ranking that the ranks give: block `b` has the rank at index `b - 1`.
pub open spec fn rank_of(ranks: Seq<usize>) -> spec_fn(int) -> nat {
    |b: int| if 1 <= b <= ranks.len() {
        ranks[b - 1] as nat
    } else {
        0
    }
}

/// Every ranked block runs only ranked blocks of lower rank.
pub open spec fn ranks_consistent(p: SParsed, ranks: Seq<usize>) -> bool {
    forall|b: int, i: int|
        1 <= b <= p.blocks.len() && ranks[b - 1] > 0 && 0 <= i < p.blocks[b - 1].contents.len()
            ==> (#[trigger] runs_block(p, p.blocks[b - 1].contents[i]) matches Some(s) ==> 1 <= s
            <= p.blocks.len() && 0 < ranks[s - 1] < ranks[b - 1])
}

/// The block runs a block that has no rank.
pub open spec fn runs_unranked(p: SParsed, ranks: Seq<usize>, b: int) -> bool {
    exists|i: int|
        0 <= i < p.blocks[b - 1].contents.len() && (#[trigger] runs_block(p, p.blocks[b - 1].contents[i])
            matches Some(s) && 1 <= s <= p.blocks.len() && ranks[s - 1] == 0)
}

/// The number of blocks without a rank.
pub open spec fn unranked_count(ranks: Seq<usize>) -> nat
    decreases ranks.len(),
{
    if ranks.len() == 0 {
        0
    } else {
        unranked_count(ranks.drop_last()) + if ranks.last() == 0 {
            1nat
        } else {
            0nat
        }
    }
}

proof fn lemma_unranked_count_bound(ranks: Seq<usize>)
    ensures
        unranked_count(ranks) <= ranks.len(),
    decreases ranks.len(),
{
    if ranks.len() > 0 {
        lemma_unranked_count_bound(ranks.drop_last());
    }
}

proof fn lemma_unranked_count_update(ranks: Seq<usize>, i: int, v: usize)
    requires
        0 <= i < ranks.len(),
        ranks[i] == 0,
        v > 0,
    ensures
        unranked_count(ranks.update(i, v)) + 1 == unranked_count(ranks),
    decreases ranks.len(),
{
    let u = ranks.update(i, v);
    if i < ranks.len() - 1 {
        assert(u.drop_last() =~= ranks.drop_last().update(i, v));
        lemma_unranked_count_update(ranks.drop_last(), i, v);
    } else {
        assert(u.drop_last() =~= ranks.drop_last());
    }
}

/// Where every block without a rank runs a block without a rank, and some block has
/// none, no ranking works.
proof fn lemma_no_ranking(p: SParsed, ranks: Seq<usize>, rank: spec_fn(int) -> nat, b: int)
    requires
        ranks.len() == p.blocks.len(),
        1 <= b <= p.blocks.len(),
        ranks[b - 1] == 0,
        forall|c: int| 1 <= c <= p.blocks.len() && ranks[c - 1] == 0 ==> #[trigger] runs_unranked(p, ranks, c),
    ensures
        !ranked(p, rank),
    decreases rank(b),
{
    if ranked(p, rank) {
        assert(runs_unranked(p, ranks, b));
        let i = choose|i: int|
            0 <= i < p.blocks[b - 1].contents.len() && (#[trigger] runs_block(p, p.blocks[b - 1].contents[i])
                matches Some(s) && 1 <= s <= p.blocks.len() && ranks[s - 1] == 0);
        let k = p.blocks[b - 1].contents[i];
        let s = runs_block(p, k)->0;
        assert(instr_ranked(p, rank, (b - 1) + 1, p.blocks[b - 1].contents[i]));
        lemma_no_ranking(p, ranks, rank, s);
    }
}

/// The block that an instruction runs, if it runs one
fn runs_block_exec(parsed: &Parsed, kind: &InstrKind) -> (r: Option<BlockId>)
    ensures
        match r {
            Some(id) => runs_block(parsed@, kind@) == Some(id as int),
            None => runs_block(parsed@, kind@) is None,
        },
{
    match kind {
        InstrKind::If { if_block, .. } => {
            assert(kind@ is If && kind@->if_block == *if_block);
            assert(runs_block(parsed@, kind@) == Some(*if_block as int));
            let r = Some(*if_block);
            assert(r matches Some(id) && runs_block(parsed@, kind@) == Some(id as int));
            r
        },
        InstrKind::Call(routine) => {
            let name = match routine {
                Later::Full(n) => n.as_str(),
                Later::Empty => {
                    let e = "";
                    proof {
                        reveal_strlit("");
                        assert(e@ =~= Seq::<char>::empty());
                    }
                    e
                },
            };
            assert(name@ == later_value(crate::instruction::later_view(*routine)));
            parsed.get_routine(name)
        },
        _ => {
            assert(runs_block(parsed@, kind@) is None);
            None
        },
    }
}

/// Whether every block that the block runs has a rank lower than `k`
fn block_ready(parsed: &Parsed, ranks: &Vec<usize>, index: usize, k: u128) -> (r: bool)
    requires
        parsed_done(parsed@),
        index < parsed@.blocks.len(),
        ranks@.len() == parsed@.blocks.len(),
    ensures
        r == forall|i: int|
            0 <= i < parsed@.blocks[index as int].contents.len() ==> (#[trigger] runs_block(
                parsed@,
                parsed@.blocks[index as int].contents[i],
            ) matches Some(s) ==> 1 <= s <= parsed@.blocks.len() && 0 < ranks@[s - 1] < k),
{
    let ghost p = parsed@;
    let ghost b = index + 1;
    let block = parsed.block_at(index);
    let mut i: usize = 0;
    while i < block.contents.len()
        invariant
            p == parsed@,
            parsed_done(p),
            b == index + 1,
            index < p.blocks.len(),
            ranks@.len() == p.blocks.len(),
            block@ == p.blocks[b - 1],
            i <= block.contents@.len(),
            forall|j: int|
                0 <= j < i ==> (#[trigger] runs_block(p, p.blocks[b - 1].contents[j]) matches Some(s) ==> 1
                    <= s <= p.blocks.len() && 0 < ranks@[s - 1] < k),
        decreases block.contents@.len() - i,
    {
        let ghost kind = p.blocks[b - 1].contents[i as int];
        proof {
            assert(block.contents@[i as int].kind@ == kind);
            assert(crate::parse::instr_linked(kind, p.blocks.len()));
        }
        match runs_block_exec(parsed, &block.contents[i].kind) {
            Some(s) => {
                proof {
                    if kind is Call {
                        assert(1 <= s <= p.blocks.len());
                    }
                }
                let rank = ranks[(s - 1) as usize];
                if !(0 < rank && (rank as u128) < k) {
                    return false;
                }
            },
            None => {},
        }
        i = i + 1;
    }
    true
}

/// Whether the blocks of a parsed script can be ranked so that every block runs only
/// blocks of lower rank, which is when running it cannot recurse forever
pub fn has_call_ranking(parsed: &Parsed) -> (r: bool)
    requires
        parsed_done(parsed@),
    ensures
        r == exists|rank: spec_fn(int) -> nat| ranked(parsed@, rank),
{
    let ghost p = parsed@;
    let n = parsed.block_count();
    let mut ranks: Vec<usize> = Vec::new();
    let mut j: usize = 0;
    while j < n
        invariant
            j <= n,
            ranks@.len() == j,
            forall|x: int| 0 <= x < j ==> ranks@[x] == 0,
        decreases n - j,
    {
        ranks.push(0);
        j = j + 1;
    }
    proof {
        assert forall|x: int| 0 <= x <= ranks@.len() implies unranked_count(ranks@.take(x)) == x by {
            lemma_all_unranked(ranks@, x);
        }
        assert(ranks@.take(n as int) =~= ranks@);
    }
    let mut k: u128 = 1;
    let mut changed = true;
    while changed
        invariant
            p == parsed@,
            parsed_done(p),
            n == p.blocks.len(),
            ranks@.len() == n,
            1 <= k,
            k - 1 + unranked_count(ranks@) <= n,
            forall|x: int| 0 <= x < n ==> #[trigger] ranks@[x] < k,
            ranks_consistent(p, ranks@),
            !changed ==> forall|b: int|
                1 <= b <= n && ranks@[b - 1] == 0 ==> #[trigger] runs_unranked(p, ranks@, b),
        decreases unranked_count(ranks@) + if changed {
            1nat
        } else {
            0nat
        },
    {
        let ghost start_count = unranked_count(ranks@);
        changed = false;
        let mut idx: usize = 0;
        while idx < n
            invariant
                p == parsed@,
                parsed_done(p),
                n == p.blocks.len(),
                ranks@.len() == n,
                1 <= k,
                idx <= n,
                k - 1 + start_count <= n,
                changed ==> unranked_count(ranks@) < start_count,
                !changed ==> unranked_count(ranks@) == start_count,
                forall|x: int| 0 <= x < n ==> #[trigger] ranks@[x] <= k,
                forall|x: int| 0 <= x < n ==> (#[trigger] ranks@[x] == k ==> changed),
                ranks_consistent(p, ranks@),
                !changed ==> forall|c: int|
                    1 <= c <= idx && ranks@[c - 1] == 0 ==> #[trigger] runs_unranked(p, ranks@, c),
            decreases n - idx,
        {
            let ghost b = idx + 1;
            if ranks[idx] == 0 {
                let ready = block_ready(parsed, &ranks, idx, k);
                if ready {
                    proof {
                        lemma_unranked_count_update(ranks@, idx as int, 1);
                        assert(k <= n);
                    }
                    let ghost before = ranks@;
                    ranks.set(idx, k as usize);
                    proof {
                        lemma_unranked_count_update(before, idx as int, k as usize);
                        assert(ranks@ == before.update(idx as int, k as usize));
                        assert forall|c: int, i: int|
                            1 <= c <= p.blocks.len() && ranks@[c - 1] > 0 && 0 <= i < p.blocks[c
                                - 1].contents.len() implies (#[trigger] runs_block(
                            p,
                            p.blocks[c - 1].contents[i],
                        ) matches Some(s) ==> 1 <= s <= p.blocks.len() && 0 < ranks@[s - 1] < ranks@[c
                            - 1]) by {
                            let kind = p.blocks[c - 1].contents[i];
                            if c == b {
                                assert(p.blocks[idx as int].contents[i] == kind);
                                assert(runs_block(p, p.blocks[idx as int].contents[i]) matches Some(s) ==> 1 <= s
                                    <= p.blocks.len() && 0 < before[s - 1] < k);
                                assert(crate::parse::instr_linked(kind, p.blocks.len()));
                                if runs_block(p, kind) is Some {
                                    let s = runs_block(p, kind)->0;
                                    assert(1 <= s <= p.blocks.len());
                                    assert(0 < before[s - 1] < k);
                                    assert(s - 1 != idx);
                                    assert(ranks@[s - 1] == before[s - 1]);
                                    assert(ranks@[c - 1] == k as usize);
                                }
                            } else {
                                assert(before[c - 1] > 0);
                                assert(runs_block(p, p.blocks[c - 1].contents[i]) matches Some(s) ==> 1 <= s
                                    <= p.blocks.len() && 0 < before[s - 1] < before[c - 1]);
                            }
                        }
                    }
                    changed = true;
                } else {
                    proof {
                        if !changed {
                            let i = choose|i: int|
                                0 <= i < p.blocks[b - 1].contents.len() && !(#[trigger] runs_block(
                                    p,
                                    p.blocks[b - 1].contents[i],
                                ) matches Some(s) ==> 1 <= s <= p.blocks.len() && 0 < ranks@[s - 1] < k);
                            let kind = p.blocks[b - 1].contents[i];
                            assert(crate::parse::instr_linked(kind, p.blocks.len()));
                            assert(runs_unranked(p, ranks@, b as int));
                        }
                    }
                }
            }
            idx = idx + 1;
        }
        if changed {
            k = k + 1;
        }
    }
    let mut all_ranked = true;
    let mut c: usize = 0;
    while c < n
        invariant
            ranks@.len() == n,
            c <= n,
            all_ranked == forall|x: int| 0 <= x < c ==> ranks@[x] > 0,
        decreases n - c,
    {
        if ranks[c] == 0 {
            all_ranked = false;
        }
        c = c + 1;
    }
    proof {
        let rank = rank_of(ranks@);
        if all_ranked {
            assert forall|b: int, i: int|
                0 <= b < p.blocks.len() && 0 <= i < p.blocks[b].contents.len() implies instr_ranked(
                p,
                rank,
                b + 1,
                #[trigger] p.blocks[b].contents[i],
            ) by {
                assert(ranks@[(b + 1) - 1] > 0);
                let kind = p.blocks[b].contents[i];
                assert(p.blocks[(b + 1) - 1].contents[i] == kind);
                assert(runs_block(p, p.blocks[(b + 1) - 1].contents[i]) matches Some(s) ==> 1 <= s
                    <= p.blocks.len() && 0 < ranks@[s - 1] < ranks@[(b + 1) - 1]);
            }
            assert(ranked(p, rank));
        } else {
            let x = choose|x: int| 0 <= x < n && !(ranks@[x] > 0);
            assert forall|r: spec_fn(int) -> nat| !ranked(p, r) by {
                lemma_no_ranking(p, ranks@, r, x + 1);
            }
        }
    }
    all_ranked
}

proof fn lemma_all_unranked(ranks: Seq<usize>, x: int)
    requires
        0 <= x <= ranks.len(),
        forall|y: int| 0 <= y < ranks.len() ==> ranks[y] == 0,
    ensures
        unranked_count(ranks.take(x)) == x,
    decreases x,
{
    if x > 0 {
        lemma_all_unranked(ranks, x - 1);
        assert(ranks.take(x).drop_last() =~= ranks.take(x - 1));
    }
}


} // verus!

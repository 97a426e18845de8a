use vstd::prelude::*;

use crate::keys::Pubkey;

verus! {

/// One instruction as the flattened transaction trace records it: an index
/// into the account key table naming the program, the indices of the accounts
/// it touches, and its opaque payload bytes.
#[derive(Debug, PartialEq, Eq)]
pub struct CompiledInstruction {
    pub program_id_index: u8,
    pub accounts: Vec<u8>,
    pub data: Vec<u8>,
}

/// Mathematical image of a [`CompiledInstruction`].
pub ghost struct InstructionModel {
    pub program_id_index: u8,
    pub accounts: Seq<u8>,
    pub data: Seq<u8>,
}

impl DeepView for CompiledInstruction {
    type V = InstructionModel;

    open spec fn deep_view(&self) -> InstructionModel {
        InstructionModel {
            program_id_index: self.program_id_index,
            accounts: self.accounts@,
            data: self.data@,
        }
    }
}

/// The inner instructions that one outer instruction transitively caused,
/// depth-erased: only the owning outer index is recorded.
#[derive(Debug, PartialEq, Eq)]
pub struct InnerInstructions {
    pub index: u8,
    pub instructions: Vec<CompiledInstruction>,
}

/// Mathematical image of an [`InnerInstructions`] group.
pub ghost struct InnerInstructionsModel {
    pub index: u8,
    pub instructions: Seq<InstructionModel>,
}

impl DeepView for InnerInstructions {
    type V = InnerInstructionsModel;

    open spec fn deep_view(&self) -> InnerInstructionsModel {
        InnerInstructionsModel { index: self.index, instructions: self.instructions.deep_view() }
    }
}

/// A resolved program identity paired with its raw instruction.
pub type IxPair = (Pubkey, CompiledInstruction);

/// Mathematical image of an [`IxPair`].
pub type PairModel = (Seq<u8>, InstructionModel);

/// One detected occurrence of a tracked program together with the nested
/// instructions attributed to it.
pub type Bundle = (IxPair, Option<Vec<IxPair>>);

/// Mathematical image of a [`Bundle`].
pub type BundleModel = (PairModel, Option<Seq<PairModel>>);

/// An instruction's program id resolves when its index is in range for the
/// account key table.
pub open spec fn resolves(keys: Seq<Seq<u8>>, ix: InstructionModel) -> bool {
    (ix.program_id_index as int) < keys.len()
}

/// The program id an instruction resolves to.
pub open spec fn resolved_id(keys: Seq<Seq<u8>>, ix: InstructionModel) -> Seq<u8> {
    keys[ix.program_id_index as int]
}

/// The instructions of one group whose program id resolves, in order, each
/// paired with that id.  An out-of-range index skips the single instruction.
pub open spec fn resolved_pairs(keys: Seq<Seq<u8>>, ixs: Seq<InstructionModel>) -> Seq<PairModel>
    decreases ixs.len(),
{
    if ixs.len() == 0 {
        Seq::empty()
    } else {
        let prefix = resolved_pairs(keys, ixs.drop_last());
        let ix = ixs.last();
        if resolves(keys, ix) {
            prefix.push((resolved_id(keys, ix), ix))
        } else {
            prefix
        }
    }
}

/// The full inner list of one outer index: the resolved pairs of every group
/// owned by that index, concatenated in encounter order.
pub open spec fn inner_pairs_for(
    keys: Seq<Seq<u8>>,
    groups: Seq<InnerInstructionsModel>,
    outer_index: u8,
) -> Seq<PairModel>
    decreases groups.len(),
{
    if groups.len() == 0 {
        Seq::empty()
    } else {
        let prefix = inner_pairs_for(keys, groups.drop_last(), outer_index);
        let g = groups.last();
        if g.index == outer_index {
            prefix + resolved_pairs(keys, g.instructions)
        } else {
            prefix
        }
    }
}

/// The position at or after `from` of the first pair whose program id is
/// `pid`, or the length of the list when there is none.
pub open spec fn attribution_end(pairs: Seq<PairModel>, pid: Seq<u8>, from: int) -> int
    decreases pairs.len() - from,
{
    if from < 0 || from >= pairs.len() {
        pairs.len() as int
    } else if pairs[from].0 == pid {
        from
    } else {
        attribution_end(pairs, pid, from + 1)
    }
}

/// The run attributed to a hoisted occurrence at position `p`: everything
/// after `p` up to (excluding) the next occurrence of the same program id.
pub open spec fn attributed_run(pairs: Seq<PairModel>, p: int) -> Seq<PairModel> {
    pairs.subrange(p + 1, attribution_end(pairs, pairs[p].0, p + 1))
}

/// The bundles hoisted from the first `p` positions of an inner list, in scan
/// order: one per tracked occurrence, with its attributed run.
pub open spec fn hoisted_prefix(
    programs: Seq<Seq<u8>>,
    pairs: Seq<PairModel>,
    p: int,
) -> Seq<BundleModel>
    decreases p,
{
    if p <= 0 {
        Seq::empty()
    } else {
        let prefix = hoisted_prefix(programs, pairs, p - 1);
        if programs.contains(pairs[p - 1].0) {
            prefix.push((pairs[p - 1], Some(attributed_run(pairs, p - 1))))
        } else {
            prefix
        }
    }
}

/// All bundles hoisted from one inner list.
pub open spec fn hoisted_bundles(programs: Seq<Seq<u8>>, pairs: Seq<PairModel>) -> Seq<
    BundleModel,
> {
    hoisted_prefix(programs, pairs, pairs.len() as int)
}

/// The bundle for the outer instruction itself: present exactly when its id
/// resolves and is tracked, and then attributed the complete inner list.
pub open spec fn outer_bundle(
    programs: Seq<Seq<u8>>,
    keys: Seq<Seq<u8>>,
    outer_ix: InstructionModel,
    inner: Seq<PairModel>,
) -> Seq<BundleModel> {
    if resolves(keys, outer_ix) && programs.contains(resolved_id(keys, outer_ix)) {
        seq![(((resolved_id(keys, outer_ix), outer_ix), Some(inner)))]
    } else {
        Seq::empty()
    }
}

/// The group key an outer index selects: indices are recorded as single
/// bytes, so the outer position is reduced modulo 256.
pub open spec fn group_key(i: int) -> u8 {
    (i % 256) as u8
}

/// Every bundle produced for outer index `i`: hoisted bundles first, then the
/// outer bundle if any.
pub open spec fn bundles_for_index(
    programs: Seq<Seq<u8>>,
    keys: Seq<Seq<u8>>,
    outer: Seq<InstructionModel>,
    groups: Seq<InnerInstructionsModel>,
    i: int,
) -> Seq<BundleModel> {
    let inner = inner_pairs_for(keys, groups, group_key(i));
    hoisted_bundles(programs, inner) + outer_bundle(programs, keys, outer[i], inner)
}

/// The bundles of the first `i` outer indices, in ascending index order.
pub open spec fn reconstructed_prefix(
    programs: Seq<Seq<u8>>,
    keys: Seq<Seq<u8>>,
    outer: Seq<InstructionModel>,
    groups: Seq<InnerInstructionsModel>,
    i: int,
) -> Seq<BundleModel>
    decreases i,
{
    if i <= 0 {
        Seq::empty()
    } else {
        reconstructed_prefix(programs, keys, outer, groups, i - 1) + bundles_for_index(
            programs,
            keys,
            outer,
            groups,
            i - 1,
        )
    }
}

/// The whole reconstruction: the ordered bundle sequence for every outer
/// index of the transaction.
pub open spec fn reconstructed(
    programs: Seq<Seq<u8>>,
    keys: Seq<Seq<u8>>,
    outer: Seq<InstructionModel>,
    groups: Seq<InnerInstructionsModel>,
) -> Seq<BundleModel> {
    reconstructed_prefix(programs, keys, outer, groups, outer.len() as int)
}

/// Whether a program id is one of the tracked ones.
fn contains_key(programs: &Vec<Pubkey>, pid: &Pubkey) -> (r: bool)
    ensures
        r == programs.deep_view().contains(pid@),
{
    let ghost programs_dv = programs.deep_view();
    let mut i: usize = 0;
    while i < programs.len()
        invariant
            i <= programs.len(),
            programs_dv == programs.deep_view(),
            forall|j: int| 0 <= j < i ==> programs_dv[j] != pid@,
        decreases programs.len() - i,
    {
        if programs[i].eq_key(pid) {
            assert(programs_dv[i as int] == pid@);
            return true;
        }
        i += 1;
    }
    assert(forall|j: int| 0 <= j < programs_dv.len() ==> programs_dv[j] != pid@);
    false
}

/// Copy one recorded instruction.
fn clone_instruction(ix: &CompiledInstruction) -> (r: CompiledInstruction)
    ensures
        r.deep_view() == ix.deep_view(),
{
    let r = CompiledInstruction {
        program_id_index: ix.program_id_index,
        accounts: ix.accounts.clone(),
        data: ix.data.clone(),
    };
    proof {
        assert(r.accounts@ =~= ix.accounts@);
        assert(r.data@ =~= ix.data@);
    }
    r
}

/// The bytes of a buffer from `start` on.
pub(crate) fn tail_from(data: &Vec<u8>, start: usize) -> (r: Vec<u8>)
    requires
        start <= data@.len(),
    ensures
        r@ == data@.skip(start as int),
{
    let mut r: Vec<u8> = Vec::new();
    let mut i: usize = start;
    while i < data.len()
        invariant
            start <= i <= data@.len(),
            r@ == data@.subrange(start as int, i as int),
        decreases data@.len() - i,
    {
        r.push(data[i]);
        proof {
            assert(data@.subrange(start as int, i as int + 1) =~= data@.subrange(
                start as int,
                i as int,
            ).push(data@[i as int]));
        }
        i += 1;
    }
    proof {
        assert(data@.subrange(start as int, data@.len() as int) =~= data@.skip(start as int));
    }
    r
}

/// Copy one resolved pair.
fn clone_pair(p: &IxPair) -> (r: IxPair)
    ensures
        r.deep_view() == p.deep_view(),
{
    (p.0, clone_instruction(&p.1))
}

/// A vector equal to the concatenation of two others has the concatenated
/// deep view.
proof fn lemma_deep_view_concat<T: DeepView>(u: Vec<T>, v: Vec<T>, w: Vec<T>)
    requires
        u@ == v@ + w@,
    ensures
        u.deep_view() == v.deep_view() + w.deep_view(),
{
    assert(u.deep_view() =~= v.deep_view() + w.deep_view());
}

/// A vector equal to another with one element pushed has the pushed deep
/// view.
proof fn lemma_deep_view_push<T: DeepView>(u: Vec<T>, v: Vec<T>, x: T)
    requires
        u@ == v@.push(x),
    ensures
        u.deep_view() == v.deep_view().push(x.deep_view()),
{
    assert(u.deep_view() =~= v.deep_view().push(x.deep_view()));
}

/// What [`attribution_end`] returns: the first occurrence of `pid` at or
/// after `from`, or the end of the list.
pub proof fn lemma_attribution_end_bounds(pairs: Seq<PairModel>, pid: Seq<u8>, from: int)
    requires
        0 <= from <= pairs.len(),
    ensures
        from <= attribution_end(pairs, pid, from) <= pairs.len(),
        forall|k: int|
            from <= k < attribution_end(pairs, pid, from) ==> (#[trigger] pairs[k]).0 != pid,
        attribution_end(pairs, pid, from) < pairs.len() ==> pairs[attribution_end(
            pairs,
            pid,
            from,
        )].0 == pid,
    decreases pairs.len() - from,
{
    if from < pairs.len() && pairs[from].0 != pid {
        lemma_attribution_end_bounds(pairs, pid, from + 1);
    }
}

/// Concatenate the resolved pairs of every group owned by one outer index.
fn inner_pairs(keys: &Vec<Pubkey>, groups: &Vec<InnerInstructions>, outer_index: u8) -> (r: Vec<
    IxPair,
>)
    ensures
        r.deep_view() == inner_pairs_for(keys.deep_view(), groups.deep_view(), outer_index),
{
    let ghost keys_dv = keys.deep_view();
    let ghost groups_dv = groups.deep_view();
    let mut r: Vec<IxPair> = Vec::new();
    let mut gi: usize = 0;
    while gi < groups.len()
        invariant
            gi <= groups.len(),
            keys_dv == keys.deep_view(),
            groups_dv == groups.deep_view(),
            r.deep_view() == inner_pairs_for(keys_dv, groups_dv.take(gi as int), outer_index),
        decreases groups.len() - gi,
    {
        proof {
            assert(groups_dv.take(gi as int + 1).drop_last() =~= groups_dv.take(gi as int));
            assert(groups_dv.take(gi as int + 1).last() == groups_dv[gi as int]);
        }
        let g = &groups[gi];
        if g.index == outer_index {
            let ghost ixs_dv = g.deep_view().instructions;
            let mut j: usize = 0;
            while j < g.instructions.len()
                invariant
                    j <= g.instructions.len(),
                    keys_dv == keys.deep_view(),
                    ixs_dv == g.deep_view().instructions,
                    g == &groups[gi as int],
                    gi < groups.len(),
                    groups_dv == groups.deep_view(),
                    r.deep_view() == inner_pairs_for(keys_dv, groups_dv.take(gi as int), outer_index)
                        + resolved_pairs(keys_dv, ixs_dv.take(j as int)),
                decreases g.instructions.len() - j,
            {
                proof {
                    assert(ixs_dv.take(j as int + 1).drop_last() =~= ixs_dv.take(j as int));
                    assert(ixs_dv.take(j as int + 1).last() == ixs_dv[j as int]);
                }
                let ix = &g.instructions[j];
                let idx = ix.program_id_index;
                if (idx as usize) < keys.len() {
                    let ghost old_r = r;
                    let pair = (keys[idx as usize], clone_instruction(ix));
                    r.push(pair);
                    proof {
                        lemma_deep_view_push(r, old_r, pair);
                        assert(pair.deep_view() == (resolved_id(keys_dv, ixs_dv[j as int]), ixs_dv[j as int]));
                    }
                }
                j += 1;
            }
            proof {
                assert(ixs_dv.take(ixs_dv.len() as int) =~= ixs_dv);
            }
        }
        gi += 1;
    }
    proof {
        assert(groups_dv.take(groups_dv.len() as int) =~= groups_dv);
    }
    r
}

/// Scan one inner list and emit a bundle for every tracked occurrence, each
/// with the run of following instructions up to the next occurrence of the
/// same program.
fn hoist_known_programs(programs: &Vec<Pubkey>, ix_pairs: &Vec<IxPair>) -> (r: Vec<Bundle>)
    ensures
        r.deep_view() == hoisted_bundles(programs.deep_view(), ix_pairs.deep_view()),
{
    let ghost programs_dv = programs.deep_view();
    let ghost pairs_dv = ix_pairs.deep_view();
    let mut hoist: Vec<Bundle> = Vec::new();
    let mut p: usize = 0;
    while p < ix_pairs.len()
        invariant
            p <= ix_pairs.len(),
            programs_dv == programs.deep_view(),
            pairs_dv == ix_pairs.deep_view(),
            hoist.deep_view() == hoisted_prefix(programs_dv, pairs_dv, p as int),
        decreases ix_pairs.len() - p,
    {
        let pid = ix_pairs[p].0;
        assert(pid@ == pairs_dv[p as int].0);
        if contains_key(programs, &pid) {
            let ghost end = attribution_end(pairs_dv, pid@, p as int + 1);
            proof {
                lemma_attribution_end_bounds(pairs_dv, pid@, p as int + 1);
            }
            let mut run: Vec<IxPair> = Vec::new();
            let mut q: usize = p + 1;
            while q < ix_pairs.len()
                invariant
                    p < ix_pairs.len(),
                    p as int + 1 <= q as int <= end,
                    end == attribution_end(pairs_dv, pid@, p as int + 1),
                    end <= pairs_dv.len(),
                    pid@ == pairs_dv[p as int].0,
                    pairs_dv == ix_pairs.deep_view(),
                    forall|k: int| p + 1 <= k < end ==> (#[trigger] pairs_dv[k]).0 != pid@,
                    end < pairs_dv.len() ==> pairs_dv[end].0 == pid@,
                    run.deep_view() == pairs_dv.subrange(p as int + 1, q as int),
                ensures
                    q == end,
                    run.deep_view() == pairs_dv.subrange(p as int + 1, end),
                decreases ix_pairs.len() - q,
            {
                if ix_pairs[q].0.eq_key(&pid) {
                    assert(pairs_dv[q as int].0 == pid@);
                    assert(q == end);
                    break ;
                }
                assert(pairs_dv[q as int].0 != pid@);
                assert(q != end);
                let ghost old_run = run;
                let elem = clone_pair(&ix_pairs[q]);
                run.push(elem);
                proof {
                    lemma_deep_view_push(run, old_run, elem);
                    assert(pairs_dv.subrange(p as int + 1, q as int + 1) =~= pairs_dv.subrange(
                        p as int + 1,
                        q as int,
                    ).push(pairs_dv[q as int]));
                }
                q += 1;
            }
            assert(q == end);
            assert(run.deep_view() == attributed_run(pairs_dv, p as int));
            let ghost old_hoist = hoist;
            let bundle = ((pid, clone_instruction(&ix_pairs[p].1)), Some(run));
            hoist.push(bundle);
            proof {
                lemma_deep_view_push(hoist, old_hoist, bundle);
                assert(bundle.deep_view() == (pairs_dv[p as int], Some(
                    attributed_run(pairs_dv, p as int),
                )));
            }
        }
        p += 1;
    }
    hoist
}

/// Reconstruct the ordered bundle sequence of one transaction: for each outer
/// index in ascending order, the bundles hoisted from its inner list, then
/// the bundle for the outer instruction itself when its program is tracked.
/// An outer instruction whose program id index is out of range produces no
/// bundle and reconstruction continues with the next index.
pub fn order_instructions(
    programs: &Vec<Pubkey>,
    account_keys: &Vec<Pubkey>,
    message_instructions: &Vec<CompiledInstruction>,
    meta_inner_instructions: &Vec<InnerInstructions>,
) -> (r: Vec<Bundle>)
    ensures
        r.deep_view() == reconstructed(
            programs.deep_view(),
            account_keys.deep_view(),
            message_instructions.deep_view(),
            meta_inner_instructions.deep_view(),
        ),
{
    let ghost programs_dv = programs.deep_view();
    let ghost keys_dv = account_keys.deep_view();
    let ghost outer_dv = message_instructions.deep_view();
    let ghost groups_dv = meta_inner_instructions.deep_view();
    let mut ordered_ixs: Vec<Bundle> = Vec::new();
    let mut i: usize = 0;
    while i < message_instructions.len()
        invariant
            i <= message_instructions.len(),
            programs_dv == programs.deep_view(),
            keys_dv == account_keys.deep_view(),
            outer_dv == message_instructions.deep_view(),
            groups_dv == meta_inner_instructions.deep_view(),
            ordered_ixs.deep_view() == reconstructed_prefix(
                programs_dv,
                keys_dv,
                outer_dv,
                groups_dv,
                i as int,
            ),
        decreases message_instructions.len() - i,
    {
        let key: u8 = (i % 256) as u8;
        assert(key == group_key(i as int));
        let inner = inner_pairs(account_keys, meta_inner_instructions, key);
        let ghost inner_dv = inner.deep_view();
        let mut hoisted = hoist_known_programs(programs, &inner);
        let ghost hoisted_before = hoisted;
        let ghost before_append = ordered_ixs;
        ordered_ixs.append(&mut hoisted);
        proof {
            lemma_deep_view_concat(ordered_ixs, before_append, hoisted_before);
        }
        let outer_ix = &message_instructions[i];
        let idx = outer_ix.program_id_index;
        if (idx as usize) < account_keys.len() {
            let outer_program_id = account_keys[idx as usize];
            if contains_key(programs, &outer_program_id) {
                let ghost before_push = ordered_ixs;
                let bundle = ((outer_program_id, clone_instruction(outer_ix)), Some(inner));
                ordered_ixs.push(bundle);
                proof {
                    lemma_deep_view_push(ordered_ixs, before_push, bundle);
                    assert(bundle.deep_view() == ((resolved_id(keys_dv, outer_dv[i as int]),
                    outer_dv[i as int]), Some(inner_dv)));
                }
            }
        }
        proof {
            assert(ordered_ixs.deep_view() == reconstructed_prefix(
                programs_dv,
                keys_dv,
                outer_dv,
                groups_dv,
                i as int,
            ) + bundles_for_index(programs_dv, keys_dv, outer_dv, groups_dv, i as int));
        }
        i += 1;
    }
    ordered_ixs
}

/// The number of pairs in a list whose program id is tracked.
pub open spec fn tracked_count(programs: Seq<Seq<u8>>, pairs: Seq<PairModel>) -> int
    decreases pairs.len(),
{
    if pairs.len() == 0 {
        0
    } else {
        tracked_count(programs, pairs.drop_last()) + if programs.contains(pairs.last().0) {
            1int
        } else {
            0int
        }
    }
}

/// The number of outer instructions whose program id resolves and is tracked.
pub open spec fn tracked_outer_count(
    programs: Seq<Seq<u8>>,
    keys: Seq<Seq<u8>>,
    outer: Seq<InstructionModel>,
) -> int
    decreases outer.len(),
{
    if outer.len() == 0 {
        0
    } else {
        tracked_outer_count(programs, keys, outer.drop_last()) + if resolves(keys, outer.last())
            && programs.contains(resolved_id(keys, outer.last())) {
            1int
        } else {
            0int
        }
    }
}

/// The number of tracked occurrences across all inner groups, resolvable
/// entries only.
pub open spec fn tracked_inner_total(
    programs: Seq<Seq<u8>>,
    keys: Seq<Seq<u8>>,
    groups: Seq<InnerInstructionsModel>,
) -> int
    decreases groups.len(),
{
    if groups.len() == 0 {
        0
    } else {
        tracked_inner_total(programs, keys, groups.drop_last()) + tracked_count(
            programs,
            resolved_pairs(keys, groups.last().instructions),
        )
    }
}

/// The tracked occurrences among the groups owned by one index key.
pub open spec fn tracked_inner_for(
    programs: Seq<Seq<u8>>,
    keys: Seq<Seq<u8>>,
    groups: Seq<InnerInstructionsModel>,
    key: u8,
) -> int
    decreases groups.len(),
{
    if groups.len() == 0 {
        0
    } else {
        tracked_inner_for(programs, keys, groups.drop_last(), key) + if groups.last().index
            == key {
            tracked_count(programs, resolved_pairs(keys, groups.last().instructions))
        } else {
            0int
        }
    }
}

/// The tracked occurrences of the groups selected by the first `n` outer
/// indices, summed index by index.
pub open spec fn summed_inner_for(
    programs: Seq<Seq<u8>>,
    keys: Seq<Seq<u8>>,
    groups: Seq<InnerInstructionsModel>,
    n: int,
) -> int
    decreases n,
{
    if n <= 0 {
        0
    } else {
        summed_inner_for(programs, keys, groups, n - 1) + tracked_inner_for(
            programs,
            keys,
            groups,
            group_key(n - 1),
        )
    }
}

proof fn lemma_tracked_count_concat(programs: Seq<Seq<u8>>, a: Seq<PairModel>, b: Seq<PairModel>)
    ensures
        tracked_count(programs, a + b) == tracked_count(programs, a) + tracked_count(programs, b),
    decreases b.len(),
{
    if b.len() == 0 {
        assert(a + b =~= a);
    } else {
        assert((a + b).drop_last() =~= a + b.drop_last());
        assert((a + b).last() == b.last());
        lemma_tracked_count_concat(programs, a, b.drop_last());
    }
}

proof fn lemma_hoisted_prefix_len(programs: Seq<Seq<u8>>, pairs: Seq<PairModel>, p: int)
    requires
        0 <= p <= pairs.len(),
    ensures
        hoisted_prefix(programs, pairs, p).len() == tracked_count(programs, pairs.take(p)),
    decreases p,
{
    if p == 0 {
        assert(pairs.take(0) =~= Seq::<PairModel>::empty());
    } else {
        lemma_hoisted_prefix_len(programs, pairs, p - 1);
        assert(pairs.take(p).drop_last() =~= pairs.take(p - 1));
        assert(pairs.take(p).last() == pairs[p - 1]);
    }
}

/// Every hoisted bundle of one inner list corresponds to one tracked
/// occurrence, and conversely.
proof fn lemma_hoisted_bundles_len(programs: Seq<Seq<u8>>, pairs: Seq<PairModel>)
    ensures
        hoisted_bundles(programs, pairs).len() == tracked_count(programs, pairs),
{
    lemma_hoisted_prefix_len(programs, pairs, pairs.len() as int);
    assert(pairs.take(pairs.len() as int) =~= pairs);
}

proof fn lemma_inner_pairs_count(
    programs: Seq<Seq<u8>>,
    keys: Seq<Seq<u8>>,
    groups: Seq<InnerInstructionsModel>,
    key: u8,
)
    ensures
        tracked_count(programs, inner_pairs_for(keys, groups, key)) == tracked_inner_for(
            programs,
            keys,
            groups,
            key,
        ),
    decreases groups.len(),
{
    if groups.len() > 0 {
        lemma_inner_pairs_count(programs, keys, groups.drop_last(), key);
        if groups.last().index == key {
            lemma_tracked_count_concat(
                programs,
                inner_pairs_for(keys, groups.drop_last(), key),
                resolved_pairs(keys, groups.last().instructions),
            );
        }
    }
}

proof fn lemma_summed_inner_empty(
    programs: Seq<Seq<u8>>,
    keys: Seq<Seq<u8>>,
    groups: Seq<InnerInstructionsModel>,
    n: int,
)
    requires
        groups.len() == 0,
    ensures
        summed_inner_for(programs, keys, groups, n) == 0,
    decreases n,
{
    if n > 0 {
        lemma_summed_inner_empty(programs, keys, groups, n - 1);
    }
}

proof fn lemma_summed_inner_step(
    programs: Seq<Seq<u8>>,
    keys: Seq<Seq<u8>>,
    groups: Seq<InnerInstructionsModel>,
    n: int,
)
    requires
        0 <= n <= 256,
        groups.len() > 0,
    ensures
        summed_inner_for(programs, keys, groups, n) == summed_inner_for(
            programs,
            keys,
            groups.drop_last(),
            n,
        ) + if (groups.last().index as int) < n {
            tracked_count(programs, resolved_pairs(keys, groups.last().instructions))
        } else {
            0int
        },
    decreases n,
{
    if n > 0 {
        lemma_summed_inner_step(programs, keys, groups, n - 1);
        assert(group_key(n - 1) == ((n - 1) as u8)) by {
            assert((n - 1) % 256 == n - 1);
        }
        assert((groups.last().index == group_key(n - 1)) <==> (groups.last().index as int == n
            - 1));
    }
}

proof fn lemma_summed_inner_total(
    programs: Seq<Seq<u8>>,
    keys: Seq<Seq<u8>>,
    groups: Seq<InnerInstructionsModel>,
    n: int,
)
    requires
        0 <= n <= 256,
        forall|g: int| 0 <= g < groups.len() ==> ((#[trigger] groups[g]).index as int) < n,
    ensures
        summed_inner_for(programs, keys, groups, n) == tracked_inner_total(programs, keys, groups),
    decreases groups.len(),
{
    if groups.len() == 0 {
        lemma_summed_inner_empty(programs, keys, groups, n);
    } else {
        lemma_summed_inner_step(programs, keys, groups, n);
        assert(groups.last() == groups[groups.len() - 1]);
        lemma_summed_inner_total(programs, keys, groups.drop_last(), n);
    }
}

proof fn lemma_reconstructed_prefix_len(
    programs: Seq<Seq<u8>>,
    keys: Seq<Seq<u8>>,
    outer: Seq<InstructionModel>,
    groups: Seq<InnerInstructionsModel>,
    i: int,
)
    requires
        0 <= i <= outer.len(),
    ensures
        reconstructed_prefix(programs, keys, outer, groups, i).len() == tracked_outer_count(
            programs,
            keys,
            outer.take(i),
        ) + summed_inner_for(programs, keys, groups, i),
    decreases i,
{
    if i == 0 {
        assert(outer.take(0) =~= Seq::<InstructionModel>::empty());
    } else {
        lemma_reconstructed_prefix_len(programs, keys, outer, groups, i - 1);
        assert(outer.take(i).drop_last() =~= outer.take(i - 1));
        assert(outer.take(i).last() == outer[i - 1]);
        let inner = inner_pairs_for(keys, groups, group_key(i - 1));
        lemma_hoisted_bundles_len(programs, inner);
        lemma_inner_pairs_count(programs, keys, groups, group_key(i - 1));
    }
}

/// For any input whose groups all name an existing outer instruction (and
/// whose outer list is short enough that the single-byte owning indices are
/// unambiguous), the number of bundles produced equals the number of tracked
/// outer instructions plus the number of tracked occurrences across all
/// inner groups.
pub proof fn lemma_bundle_count(
    programs: Seq<Seq<u8>>,
    keys: Seq<Seq<u8>>,
    outer: Seq<InstructionModel>,
    groups: Seq<InnerInstructionsModel>,
)
    requires
        outer.len() <= 256,
        forall|g: int| 0 <= g < groups.len() ==> ((#[trigger] groups[g]).index as int) < outer.len(),
    ensures
        reconstructed(programs, keys, outer, groups).len() == tracked_outer_count(
            programs,
            keys,
            outer,
        ) + tracked_inner_total(programs, keys, groups),
{
    lemma_reconstructed_prefix_len(programs, keys, outer, groups, outer.len() as int);
    lemma_summed_inner_total(programs, keys, groups, outer.len() as int);
    assert(outer.take(outer.len() as int) =~= outer);
}

proof fn lemma_prefix_is_prefix(
    programs: Seq<Seq<u8>>,
    keys: Seq<Seq<u8>>,
    outer: Seq<InstructionModel>,
    groups: Seq<InnerInstructionsModel>,
    m: int,
    n: int,
)
    requires
        0 <= m <= n,
    ensures
        reconstructed_prefix(programs, keys, outer, groups, m).len() <= reconstructed_prefix(
            programs,
            keys,
            outer,
            groups,
            n,
        ).len(),
        reconstructed_prefix(programs, keys, outer, groups, n).subrange(
            0,
            reconstructed_prefix(programs, keys, outer, groups, m).len() as int,
        ) == reconstructed_prefix(programs, keys, outer, groups, m),
    decreases n - m,
{
    let pm = reconstructed_prefix(programs, keys, outer, groups, m);
    let pn = reconstructed_prefix(programs, keys, outer, groups, n);
    if n == m {
        assert(pn.subrange(0, pm.len() as int) =~= pm);
    } else {
        lemma_prefix_is_prefix(programs, keys, outer, groups, m, n - 1);
        let pn1 = reconstructed_prefix(programs, keys, outer, groups, n - 1);
        assert(pn == pn1 + bundles_for_index(programs, keys, outer, groups, n - 1));
        assert(pn.subrange(0, pm.len() as int) =~= pn1.subrange(0, pm.len() as int));
    }
}

/// Bundles appear grouped by outer index, in ascending index order: the
/// bundles of index `i` form the contiguous segment between the lengths of
/// the reconstructions of the first `i` and the first `i + 1` indices, so for
/// `i < j` every bundle of index `i` precedes every bundle of index `j`.
pub proof fn lemma_output_ordered(
    programs: Seq<Seq<u8>>,
    keys: Seq<Seq<u8>>,
    outer: Seq<InstructionModel>,
    groups: Seq<InnerInstructionsModel>,
    i: int,
)
    requires
        0 <= i < outer.len(),
    ensures
        ({
            let all = reconstructed(programs, keys, outer, groups);
            let lo = reconstructed_prefix(programs, keys, outer, groups, i).len();
            let hi = reconstructed_prefix(programs, keys, outer, groups, i + 1).len();
            &&& lo <= hi <= all.len()
            &&& all.subrange(lo as int, hi as int) == bundles_for_index(
                programs,
                keys,
                outer,
                groups,
                i,
            )
        }),
        forall|j: int|
            i < j <= outer.len() ==> reconstructed_prefix(programs, keys, outer, groups, i + 1).len()
                <= (#[trigger] reconstructed_prefix(programs, keys, outer, groups, j)).len(),
{
    let all = reconstructed(programs, keys, outer, groups);
    let pi = reconstructed_prefix(programs, keys, outer, groups, i);
    let pi1 = reconstructed_prefix(programs, keys, outer, groups, i + 1);
    let seg = bundles_for_index(programs, keys, outer, groups, i);
    assert(pi1 == pi + seg);
    lemma_prefix_is_prefix(programs, keys, outer, groups, i + 1, outer.len() as int);
    let lo = pi.len() as int;
    let hi = pi1.len() as int;
    assert forall|t: int| 0 <= t < seg.len() implies all.subrange(lo, hi)[t] == seg[t] by {
        assert(all.subrange(0, hi)[lo + t] == all[lo + t]);
        assert(pi1[lo + t] == seg[t]);
    }
    assert(all.subrange(pi.len() as int, pi1.len() as int) =~= seg);
    assert forall|j: int| i < j <= outer.len() implies reconstructed_prefix(
        programs,
        keys,
        outer,
        groups,
        i + 1,
    ).len() <= (#[trigger] reconstructed_prefix(programs, keys, outer, groups, j)).len() by {
        lemma_prefix_is_prefix(programs, keys, outer, groups, i + 1, j);
    }
}

proof fn lemma_hoisted_prefix_attribution(
    programs: Seq<Seq<u8>>,
    pairs: Seq<PairModel>,
    p: int,
    k: int,
)
    requires
        0 <= p <= pairs.len(),
        0 <= k < hoisted_prefix(programs, pairs, p).len(),
    ensures
        exists|q: int|
            #![auto]
            0 <= q < p && programs.contains(pairs[q].0) && hoisted_prefix(programs, pairs, p)[k]
                == (pairs[q], Some(attributed_run(pairs, q))),
    decreases p,
{
    let prefix = hoisted_prefix(programs, pairs, p - 1);
    if programs.contains(pairs[p - 1].0) && k == prefix.len() {
        assert(hoisted_prefix(programs, pairs, p)[k] == (pairs[p - 1], Some(
            attributed_run(pairs, p - 1),
        )));
    } else {
        lemma_hoisted_prefix_attribution(programs, pairs, p - 1, k);
    }
}

/// Every hoisted bundle is one tracked occurrence of the inner list, and its
/// attributed run is drawn solely from the positions strictly after it, up to
/// (excluding) the next occurrence of its own program id: the run never
/// contains the occurrence itself, an entry before it, or an entry sharing
/// its program id.
pub proof fn lemma_hoisted_attribution(programs: Seq<Seq<u8>>, pairs: Seq<PairModel>, k: int)
    requires
        0 <= k < hoisted_bundles(programs, pairs).len(),
    ensures
        exists|q: int|
            #![auto]
            0 <= q < pairs.len() && programs.contains(pairs[q].0) && hoisted_bundles(
                programs,
                pairs,
            )[k] == (pairs[q], Some(pairs.subrange(q + 1, attribution_end(pairs, pairs[q].0, q + 1)))),
        ({
            let b = hoisted_bundles(programs, pairs)[k];
            b.1 matches Some(run) ==> forall|m: int|
                0 <= m < run.len() ==> (#[trigger] run[m]).0 != b.0.0
        }),
{
    lemma_hoisted_prefix_attribution(programs, pairs, pairs.len() as int, k);
    let b = hoisted_bundles(programs, pairs)[k];
    let q = choose|q: int|
        #![auto]
        0 <= q < pairs.len() && programs.contains(pairs[q].0) && hoisted_bundles(programs, pairs)[k]
            == (pairs[q], Some(attributed_run(pairs, q)));
    lemma_attribution_end_bounds(pairs, pairs[q].0, q + 1);
    let run = attributed_run(pairs, q);
    assert forall|m: int| 0 <= m < run.len() implies (#[trigger] run[m]).0 != b.0.0 by {
        assert(run[m] == pairs[q + 1 + m]);
    }
}

/// An outer instruction whose program id resolves to a tracked program
/// produces, as the last bundle of its index, the pair itself attributed the
/// complete inner list of that index — entries already hoisted into bundles
/// of their own included.
pub proof fn lemma_outer_bundle_full_inner_list(
    programs: Seq<Seq<u8>>,
    keys: Seq<Seq<u8>>,
    outer: Seq<InstructionModel>,
    groups: Seq<InnerInstructionsModel>,
    i: int,
)
    requires
        0 <= i < outer.len(),
        resolves(keys, outer[i]),
        programs.contains(resolved_id(keys, outer[i])),
    ensures
        ({
            let b = bundles_for_index(programs, keys, outer, groups, i);
            &&& b.len() > 0
            &&& b.last() == (((resolved_id(keys, outer[i]), outer[i]), Some(
                inner_pairs_for(keys, groups, group_key(i)),
            )))
        }),
{
}

/// Reconstruction is deterministic: it is a pure function of its inputs, so
/// two reconstructions of the same transaction are equal element for
/// element.
pub proof fn lemma_reconstruction_deterministic(
    r1: Seq<BundleModel>,
    r2: Seq<BundleModel>,
    programs: Seq<Seq<u8>>,
    keys: Seq<Seq<u8>>,
    outer: Seq<InstructionModel>,
    groups: Seq<InnerInstructionsModel>,
)
    requires
        r1 == reconstructed(programs, keys, outer, groups),
        r2 == reconstructed(programs, keys, outer, groups),
    ensures
        r1 == r2,
{
}

/// One bundle handed to a decoder: the detected occurrence of a program,
/// the nested instructions attributed to it, and the transaction context it
/// came from.
#[derive(Debug)]
pub struct InstructionBundle {
    pub txn_id: String,
    pub program: Pubkey,
    pub instruction: Option<CompiledInstruction>,
    pub inner_ix: Option<Vec<IxPair>>,
    pub keys: Vec<Pubkey>,
    pub slot: u64,
}

/// Mathematical image of an [`InstructionBundle`].
pub ghost struct InstructionBundleModel {
    pub txn_id: Seq<char>,
    pub program: Seq<u8>,
    pub instruction: Option<InstructionModel>,
    pub inner_ix: Option<Seq<PairModel>>,
    pub keys: Seq<Seq<u8>>,
    pub slot: u64,
}

impl DeepView for InstructionBundle {
    type V = InstructionBundleModel;

    open spec fn deep_view(&self) -> InstructionBundleModel {
        InstructionBundleModel {
            txn_id: self.txn_id@,
            program: self.program@,
            instruction: self.instruction.deep_view(),
            inner_ix: self.inner_ix.deep_view(),
            keys: self.keys.deep_view(),
            slot: self.slot,
        }
    }
}

impl Default for InstructionBundle {
    /// An empty bundle: no transaction id, the all-zero program id, no
    /// instruction, no inner instructions, no keys, slot zero.
    fn default() -> (r: InstructionBundle)
        ensures
            r.txn_id@.len() == 0,
            r.program@ == Seq::new(32, |i: int| 0u8),
            r.instruction is None,
            r.inner_ix is None,
            r.keys@.len() == 0,
            r.slot == 0,
    {
        let r = InstructionBundle {
            txn_id: String::new(),
            program: Pubkey::new_from_array([0; 32]),
            instruction: None,
            inner_ix: None,
            keys: Vec::new(),
            slot: 0,
        };
        proof {
            assert(r.program@ =~= Seq::new(32, |i: int| 0u8));
        }
        r
    }
}

} // verus!

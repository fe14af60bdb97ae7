//! Facts about maps and sequences that the proofs share.

use crate::clarity::{ContractContextView, LocalContextView};
use crate::messages::Category;
use crate::model::DebuggerView;
use crate::types::VariableView;
use vstd::prelude::*;

verus! {

/// Putting a value into a map, seen through a function on the values.
pub(crate) proof fn lemma_map_values_insert<K, V, W>(m: Map<K, V>, k: K, v: V, f: spec_fn(V) -> W)
    ensures
        m.insert(k, v).map_values(f) == m.map_values(f).insert(k, f(v)),
{
    assert(m.insert(k, v).map_values(f) =~= m.map_values(f).insert(k, f(v)));
}

/// Putting in the variables of one more scope.
pub(crate) proof fn lemma_with_scopes_next(
    base: Map<i32, Seq<VariableView>>,
    frame_id: i32,
    chain: Seq<LocalContextView>,
    contract: ContractContextView,
    count: int,
)
    requires
        count >= 0,
        i32::MIN <= crate::model::scope_reference(frame_id, 0),
        crate::model::scope_reference(frame_id, count) <= i32::MAX,
    ensures
        crate::model::with_scopes(base, frame_id, chain, contract, count).insert(
            crate::model::scope_reference(frame_id, count) as i32,
            crate::model::scope_variables(chain, contract, count),
        ) == crate::model::with_scopes(base, frame_id, chain, contract, count + 1),
{
    assert(crate::model::with_scopes(base, frame_id, chain, contract, count).insert(
        crate::model::scope_reference(frame_id, count) as i32,
        crate::model::scope_variables(chain, contract, count),
    ) =~= crate::model::with_scopes(base, frame_id, chain, contract, count + 1));
}

/// Each text takes one message.
pub(crate) proof fn lemma_printing_all_len(
    debugger: DebuggerView,
    category: Category,
    texts: Seq<Seq<char>>,
)
    ensures
        debugger.printing_all(category, texts).send_seq == debugger.send_seq + texts.len(),
    decreases texts.len(),
{
    if texts.len() > 0 {
        lemma_printing_all_len(debugger, category, texts.drop_last());
    }
}

/// Texts for the user only send messages.
pub(crate) proof fn lemma_printing_all_only_sends(
    debugger: DebuggerView,
    category: Category,
    texts: Seq<Seq<char>>,
)
    ensures
        ({
            let after = debugger.printing_all(category, texts);
            &&& after == DebuggerView {
                actions: after.actions,
                send_seq: after.send_seq,
                ..debugger
            }
            &&& debugger.actions.is_prefix_of(after.actions)
        }),
    decreases texts.len(),
{
    if texts.len() > 0 {
        lemma_printing_all_only_sends(debugger, category, texts.drop_last());
    }
}

} // verus!

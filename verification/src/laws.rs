//! Laws of the actor's model semantics: what sequences of messages do to
//! the committed state, stated and proved over `step`.

use vstd::prelude::*;
use crate::actor::ActorModel;
use crate::actor::MsgView;
use crate::actor::apply_batch;
use crate::actor::doc_id;
use crate::actor::id_field_of;
use crate::actor::step;
use crate::doc::DocEntryView;

verus! {

/// The state after processing a sequence of messages in order.
pub open spec fn run(m: ActorModel, msgs: Seq<MsgView>) -> ActorModel
    decreases msgs.len(),
{
    if msgs.len() == 0 {
        m
    } else {
        step(run(m, msgs.drop_last()), msgs.last())
    }
}

/// No message of the sequence is a commit.
pub open spec fn no_commit(msgs: Seq<MsgView>) -> bool {
    forall|i: int| 0 <= i < msgs.len() ==> !(#[trigger] msgs[i] is Commit)
}

/// A state is consistent when a cleared `must_commit` flag means an empty
/// pending batch; bootstrap starts consistent and every step keeps it.
pub open spec fn consistent(m: ActorModel) -> bool {
    !m.must_commit ==> m.pending =~= Map::<Seq<char>, Option<Seq<DocEntryView>>>::empty()
}

/// Appending one message runs the sequence and then steps once.
pub proof fn lemma_run_push(m: ActorModel, msgs: Seq<MsgView>, msg: MsgView)
    ensures
        run(m, msgs.push(msg)) == step(run(m, msgs), msg),
{
    assert(msgs.push(msg).drop_last() =~= msgs);
    assert(msgs.push(msg).last() == msg);
}

/// Every step keeps consistency.
pub proof fn lemma_step_consistent(m: ActorModel, msg: MsgView)
    requires
        consistent(m),
    ensures
        consistent(step(m, msg)),
{
}

/// A whole run keeps consistency.
pub proof fn lemma_run_consistent(m: ActorModel, msgs: Seq<MsgView>)
    requires
        consistent(m),
    ensures
        consistent(run(m, msgs)),
    decreases msgs.len(),
{
    if msgs.len() > 0 {
        lemma_run_consistent(m, msgs.drop_last());
        lemma_step_consistent(run(m, msgs.drop_last()), msgs.last());
    }
}

/// No step changes the name or the schema.
pub proof fn lemma_run_same_schema(m: ActorModel, msgs: Seq<MsgView>)
    ensures
        run(m, msgs).schema == m.schema,
        run(m, msgs).name == m.name,
    decreases msgs.len(),
{
    if msgs.len() > 0 {
        lemma_run_same_schema(m, msgs.drop_last());
    }
}

/// Commit atomicity, first half: messages that are not commits leave the
/// committed state and the commit count untouched, so a searcher obtained
/// before a commit sees nothing of them.
pub proof fn lemma_no_commit_invisible(m: ActorModel, msgs: Seq<MsgView>)
    requires
        no_commit(msgs),
    ensures
        run(m, msgs).committed == m.committed,
        run(m, msgs).commits == m.commits,
    decreases msgs.len(),
{
    if msgs.len() > 0 {
        assert(forall|i: int|
            0 <= i < msgs.len() - 1 ==> !(#[trigger] msgs.drop_last()[i] is Commit));
        lemma_no_commit_invisible(m, msgs.drop_last());
    }
}

/// Publishing an empty batch changes nothing.
pub proof fn lemma_apply_batch_empty(c: Map<Seq<char>, Seq<DocEntryView>>)
    ensures
        apply_batch(c, Map::empty()) =~= c,
{
}

/// Commit atomicity, second half: a commit after a run of non-commit
/// messages publishes exactly the batch that those messages accumulated on
/// top of the previously committed state.
pub proof fn lemma_commit_publishes(m: ActorModel, msgs: Seq<MsgView>)
    requires
        no_commit(msgs),
        consistent(m),
    ensures
        run(m, msgs.push(MsgView::Commit)).committed =~= apply_batch(
            m.committed,
            run(m, msgs).pending,
        ),
    decreases msgs.len(),
{
    let p = run(m, msgs);
    lemma_run_push(m, msgs, MsgView::Commit);
    lemma_no_commit_invisible(m, msgs);
    if p.must_commit {
        assert(step(p, MsgView::Commit).committed == apply_batch(p.committed, p.pending));
    } else {
        lemma_run_consistent(m, msgs);
        lemma_apply_batch_empty(p.committed);
        assert(apply_batch(m.committed, p.pending) =~= p.committed);
    }
}

/// The sequence of upsert messages for a sequence of documents.
pub open spec fn upserts_of(docs: Seq<Seq<DocEntryView>>) -> Seq<MsgView> {
    docs.map_values(|d: Seq<DocEntryView>| MsgView::Single(d))
}

/// After a run of upserts on one id, the pending batch holds the last
/// document under that id, the flag is raised, and nothing else moved.
pub proof fn lemma_upserts_pending(m: ActorModel, docs: Seq<Seq<DocEntryView>>, id: Seq<char>)
    requires
        docs.len() > 0,
        forall|i: int| 0 <= i < docs.len() ==> doc_id(m.schema, #[trigger] docs[i]) == Some(id),
    ensures
        run(m, upserts_of(docs)).pending.contains_key(id),
        run(m, upserts_of(docs)).pending[id] == Some(docs.last()),
        run(m, upserts_of(docs)).must_commit,
        run(m, upserts_of(docs)).committed == m.committed,
        run(m, upserts_of(docs)).schema == m.schema,
    decreases docs.len(),
{
    assert(upserts_of(docs).drop_last() =~= upserts_of(docs.drop_last()));
    assert(upserts_of(docs).last() == MsgView::Single(docs.last()));
    if docs.len() == 1 {
        assert(upserts_of(docs) =~= Seq::<MsgView>::empty().push(MsgView::Single(docs[0])));
        lemma_run_push(m, Seq::empty(), MsgView::Single(docs[0]));
        assert(run(m, Seq::<MsgView>::empty()) == m);
        assert(run(m, upserts_of(docs)) == step(m, MsgView::Single(docs[0])));
    } else {
        lemma_upserts_pending(m, docs.drop_last(), id);
        let p = run(m, upserts_of(docs.drop_last()));
        lemma_run_same_schema(m, upserts_of(docs.drop_last()));
        assert(doc_id(p.schema, docs.last()) == Some(id));
        assert(run(m, upserts_of(docs)) == step(p, MsgView::Single(docs.last())));
    }
}

/// Upsert idempotence: for any run of upserts on the same id whose final
/// payload is `D`, a commit publishes exactly one document under that id,
/// and it is `D`.
pub proof fn lemma_upsert_idempotent(m: ActorModel, docs: Seq<Seq<DocEntryView>>, id: Seq<char>)
    requires
        docs.len() > 0,
        forall|i: int| 0 <= i < docs.len() ==> doc_id(m.schema, #[trigger] docs[i]) == Some(id),
    ensures
        run(m, upserts_of(docs).push(MsgView::Commit)).committed.contains_key(id),
        run(m, upserts_of(docs).push(MsgView::Commit)).committed[id] == docs.last(),
{
    lemma_upserts_pending(m, docs, id);
    lemma_run_push(m, upserts_of(docs), MsgView::Commit);
    let p = run(m, upserts_of(docs));
    assert(step(p, MsgView::Commit).committed == apply_batch(p.committed, p.pending));
}

/// Delete wins over a prior upsert: upsert, then delete of the same id,
/// then commit, leaves no document under that id.
pub proof fn lemma_delete_wins(m: ActorModel, x: Seq<DocEntryView>, id: Seq<char>)
    requires
        doc_id(m.schema, x) == Some(id),
    ensures
        !run(
            m,
            seq![MsgView::Single(x), MsgView::Delete(id), MsgView::Commit],
        ).committed.contains_key(id),
{
    let msgs = seq![MsgView::Single(x), MsgView::Delete(id), MsgView::Commit];
    let m1 = step(m, MsgView::Single(x));
    let m2 = step(m1, MsgView::Delete(id));
    let m3 = step(m2, MsgView::Commit);
    assert(id_field_of(m.schema) is Some);
    let s1 = Seq::<MsgView>::empty().push(MsgView::Single(x));
    let s2 = s1.push(MsgView::Delete(id));
    let s3 = s2.push(MsgView::Commit);
    lemma_run_push(m, Seq::empty(), MsgView::Single(x));
    lemma_run_push(m, s1, MsgView::Delete(id));
    lemma_run_push(m, s2, MsgView::Commit);
    assert(run(m, Seq::<MsgView>::empty()) == m);
    assert(s3 =~= msgs);
    assert(run(m, msgs) == m3);
    assert(m2.pending.contains_key(id) && m2.pending[id] is None);
    assert(m2.must_commit);
    assert(m3.committed == apply_batch(m2.committed, m2.pending));
}

/// FIFO per producer: two upserts on the same id, then a commit, publish
/// the second upsert's payload.
pub proof fn lemma_fifo_per_producer(
    m: ActorModel,
    d1: Seq<DocEntryView>,
    d2: Seq<DocEntryView>,
    id: Seq<char>,
)
    requires
        doc_id(m.schema, d1) == Some(id),
        doc_id(m.schema, d2) == Some(id),
    ensures
        ({
            let f = run(m, seq![MsgView::Single(d1), MsgView::Single(d2), MsgView::Commit]);
            f.committed.contains_key(id) && f.committed[id] == d2
        }),
{
    let docs = seq![d1, d2];
    assert(forall|i: int| 0 <= i < docs.len() ==> doc_id(m.schema, #[trigger] docs[i]) == Some(id));
    lemma_upsert_idempotent(m, docs, id);
    assert(upserts_of(docs).push(MsgView::Commit) =~= seq![
        MsgView::Single(d1),
        MsgView::Single(d2),
        MsgView::Commit,
    ]);
    assert(docs.last() == d2);
}

/// A commit with nothing to commit is a no-op: the state, the commit count
/// included, does not move, so the writer's opstamp does not advance.
pub proof fn lemma_noop_commit(m: ActorModel)
    requires
        !m.must_commit,
    ensures
        step(m, MsgView::Commit) == m,
{
}

} // verus!

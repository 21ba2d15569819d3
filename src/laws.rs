use vstd::prelude::*;

use crate::categorized::TcrApiError;
use crate::container::{caught, failure_text, rendered, separator, AnyErrorView, Failure};

verus! {

/// Attaching layers of context keeps the root failure and appends the layers
/// after those already there.
pub proof fn lemma_with_contexts(v: AnyErrorView, texts: Seq<Seq<char>>)
    ensures
        v.with_contexts(texts).root == v.root,
        v.with_contexts(texts).contexts == v.contexts + texts,
    decreases texts.len(),
{
    if texts.len() == 0 {
        assert(v.contexts + texts =~= v.contexts);
    } else {
        lemma_with_contexts(v, texts.drop_last());
        assert(v.contexts + texts =~= (v.contexts + texts.drop_last()).push(texts.last()));
    }
}

/// A rendering is the text of its context layers followed by the root
/// failure's text, which always comes last.
pub proof fn lemma_rendered_ends_with_root(contexts: Seq<Seq<char>>, root: Seq<char>)
    ensures
        rendered(contexts, root) == rendered(contexts, Seq::empty()) + root,
    decreases contexts.len(),
{
    if contexts.len() == 0 {
        assert(Seq::<char>::empty() + root =~= root);
    } else {
        lemma_rendered_ends_with_root(contexts.drop_last(), root);
        let head = contexts.last() + separator();
        assert(head + (rendered(contexts.drop_last(), Seq::empty()) + root)
            =~= (head + rendered(contexts.drop_last(), Seq::empty())) + root);
    }
}

/// A categorized failure taken into a container comes back from `downcast`,
/// equal to the value that was taken in, however many layers of context lie
/// over it.
pub proof fn lemma_downcast_through_contexts(e: TcrApiError, texts: Seq<Seq<char>>)
    ensures
        caught(Failure::Categorized(e)).with_contexts(texts).downcast() == Some(e),
{
    lemma_with_contexts(caught(Failure::Categorized(e)), texts);
}

/// Context attached as `a`, then `b`, then `c` renders outermost first: `c`,
/// then `b`, then `a`, then the layers that were there before, then the root
/// failure's text.
pub proof fn lemma_context_order(v: AnyErrorView, a: Seq<char>, b: Seq<char>, c: Seq<char>)
    ensures
        v.with_context(a).with_context(b).with_context(c).render() == c + separator() + b
            + separator() + a + separator() + rendered(v.contexts, Seq::empty()) + failure_text(
            v.root,
        ),
{
    let root = failure_text(v.root);
    let va = v.with_context(a);
    let vb = va.with_context(b);
    let vc = vb.with_context(c);
    assert(vc.contexts.drop_last() == vb.contexts);
    assert(vb.contexts.drop_last() == va.contexts);
    assert(va.contexts.drop_last() == v.contexts);
    lemma_rendered_ends_with_root(v.contexts, root);
    let s = separator();
    let rest = rendered(v.contexts, Seq::empty());
    assert(vc.contexts.last() == c);
    assert(vb.contexts.last() == b);
    assert(va.contexts.last() == a);
    assert(rendered(va.contexts, root) == (a + s) + (rest + root));
    assert(rendered(vb.contexts, root) == (b + s) + ((a + s) + (rest + root)));
    assert(vc.render() == (c + s) + ((b + s) + ((a + s) + (rest + root))));
    assert((c + s) + ((b + s) + ((a + s) + (rest + root))) =~= c + s + b + s + a + s + rest
        + root);
}

/// Attaching context leaves the container beneath intact: the new rendering
/// is the new text, the separator, and the old rendering unchanged.
pub proof fn lemma_context_keeps_inner(v: AnyErrorView, text: Seq<char>)
    ensures
        v.with_context(text).render() == text + separator() + v.render(),
        v.with_context(text).downcast() == v.downcast(),
{
    assert(v.with_context(text).contexts.drop_last() == v.contexts);
}

/// A foreign failure never downcasts to the taxonomy, under any context.
pub proof fn lemma_foreign_never_categorized(v: AnyErrorView, texts: Seq<Seq<char>>)
    requires
        v.root is Foreign,
    ensures
        v.with_contexts(texts).downcast() is None,
{
    lemma_with_contexts(v, texts);
}

/// A one-off message never downcasts to the taxonomy, under any context.
pub proof fn lemma_message_never_categorized(text: Seq<char>, texts: Seq<Seq<char>>)
    ensures
        caught(Failure::AdHoc(text)).with_contexts(texts).downcast() is None,
{
    lemma_with_contexts(caught(Failure::AdHoc(text)), texts);
}

} // verus!

use vstd::prelude::*;

use crate::categorized::TcrApiError;

verus! {

/// The failure at the bottom of a chain, in the abstract view of a container.
pub enum Failure {
    /// A failure of the taxonomy, kept as the value that was raised.
    Categorized(TcrApiError),
    /// A failure of some other origin, known by its rendered text.
    Foreign(Seq<char>),
    /// A one-off failure described by a message.
    AdHoc(Seq<char>),
}

/// The abstract value of an `AnyError`: its root failure and the context
/// texts layered on it, innermost first.
pub struct AnyErrorView {
    pub root: Failure,
    pub contexts: Seq<Seq<char>>,
}

/// The text that joins two layers of a rendering.
pub open spec fn separator() -> Seq<char> {
    seq![':', ' ']
}

/// The text of a root failure on its own.
pub open spec fn failure_text(f: Failure) -> Seq<char> {
    match f {
        Failure::Categorized(e) => e.message(),
        Failure::Foreign(text) => text,
        Failure::AdHoc(text) => text,
    }
}

/// The rendering of a chain: the context texts outermost first (the last of
/// `contexts` first), each followed by the separator, then the root text.
pub open spec fn rendered(contexts: Seq<Seq<char>>, root: Seq<char>) -> Seq<char>
    decreases contexts.len(),
{
    if contexts.len() == 0 {
        root
    } else {
        contexts.last() + separator() + rendered(contexts.drop_last(), root)
    }
}

/// A chain that holds `root` and no context yet.
pub open spec fn caught(root: Failure) -> AnyErrorView {
    AnyErrorView { root, contexts: Seq::empty() }
}

impl AnyErrorView {
    /// One more layer of context, outside all the others.
    pub open spec fn with_context(self, text: Seq<char>) -> AnyErrorView {
        AnyErrorView { root: self.root, contexts: self.contexts.push(text) }
    }

    /// The layers `texts` attached one after the other, the first innermost.
    pub open spec fn with_contexts(self, texts: Seq<Seq<char>>) -> AnyErrorView
        decreases texts.len(),
    {
        if texts.len() == 0 {
            self
        } else {
            self.with_contexts(texts.drop_last()).with_context(texts.last())
        }
    }

    pub open spec fn render(self) -> Seq<char> {
        rendered(self.contexts, failure_text(self.root))
    }

    /// The categorized failure that the chain holds, if it holds one.
    pub open spec fn downcast(self) -> Option<TcrApiError> {
        match self.root {
            Failure::Categorized(e) => Some(e),
            _ => None,
        }
    }
}

#[derive(Debug)]
enum Root {
    Categorized(TcrApiError),
    Foreign(String),
    AdHoc(String),
}

impl Root {
    closed spec fn view(&self) -> Failure {
        match self {
            Root::Categorized(e) => Failure::Categorized(*e),
            Root::Foreign(text) => Failure::Foreign(text@),
            Root::AdHoc(text) => Failure::AdHoc(text@),
        }
    }

    fn text(&self) -> (r: String)
        ensures
            r@ == failure_text(self.view()),
    {
        match self {
            Root::Categorized(e) => e.render(),
            Root::Foreign(text) => text.clone(),
            Root::AdHoc(text) => text.clone(),
        }
    }
}

impl Clone for Root {
    fn clone(&self) -> (r: Self)
        ensures
            r == *self,
    {
        match self {
            Root::Categorized(e) => Root::Categorized(e.clone()),
            Root::Foreign(text) => Root::Foreign(text.clone()),
            Root::AdHoc(text) => Root::AdHoc(text.clone()),
        }
    }
}

/// A container for any failure: one root failure, categorized, foreign or
/// one-off, under the context texts that callers attached on the way up.
#[derive(Debug)]
pub struct AnyError {
    root: Root,
    contexts: Vec<String>,
}

/// The result shape of any operation that may fail for more than one reason.
pub type AnyResult<T> = Result<T, AnyError>;

impl View for AnyError {
    type V = AnyErrorView;

    closed spec fn view(&self) -> AnyErrorView {
        AnyErrorView {
            root: self.root.view(),
            contexts: self.contexts@.map_values(|s: String| s@),
        }
    }
}

impl AnyError {
    fn caught(root: Root) -> (r: AnyError)
        ensures
            r@ == caught(root.view()),
    {
        let r = AnyError { root, contexts: Vec::new() };
        assert(r@.contexts =~= Seq::<Seq<char>>::empty());
        r
    }

    /// Takes in a categorized failure; `downcast` gives it back.
    pub fn from_categorized(e: TcrApiError) -> (r: AnyError)
        ensures
            r@ == caught(Failure::Categorized(e)),
    {
        AnyError::caught(Root::Categorized(e))
    }

    /// Takes in a failure of another origin by its rendered text.
    pub fn from_foreign(text: String) -> (r: AnyError)
        ensures
            r@ == caught(Failure::Foreign(text@)),
    {
        AnyError::caught(Root::Foreign(text))
    }

    /// A one-off failure that no caller needs to match on.
    pub fn message(text: String) -> (r: AnyError)
        ensures
            r@ == caught(Failure::AdHoc(text@)),
    {
        AnyError::caught(Root::AdHoc(text))
    }

    /// A new container with `text` as its outermost layer and this one,
    /// unchanged, beneath it.
    pub fn with_context(&self, text: String) -> (r: AnyError)
        ensures
            r@ == self@.with_context(text@),
    {
        let mut contexts = self.contexts.clone();
        assert(contexts@ =~= self.contexts@);
        contexts.push(text);
        let r = AnyError { root: self.root.clone(), contexts };
        assert(r@.contexts =~= self@.contexts.push(text@));
        r
    }

    /// The whole chain as text: the contexts outermost first, each followed by
    /// `": "`, then the root failure's own text.
    pub fn render(&self) -> (r: String)
        ensures
            r@ == self@.render(),
    {
        let ghost texts = self@.contexts;
        let ghost root = failure_text(self@.root);
        let mut out = self.root.text();
        let mut i: usize = 0;
        while i < self.contexts.len()
            invariant
                i <= self.contexts.len(),
                texts == self@.contexts,
                texts.len() == self.contexts.len(),
                out@ == rendered(texts.subrange(0, i as int), root),
            decreases self.contexts.len() - i,
        {
            let mut next = self.contexts[i].clone();
            next.append(": ");
            next.append(out.as_str());
            proof {
                reveal_strlit(": ");
                let done = texts.subrange(0, i + 1);
                assert(done.drop_last() =~= texts.subrange(0, i as int));
                assert(done.last() == texts[i as int]);
            }
            out = next;
            i = i + 1;
        }
        assert(texts.subrange(0, i as int) =~= texts);
        out
    }

    /// The container beneath the outermost layer of context: the same root
    /// with every layer but the outermost; `None` where no context was attached.
    pub fn cause(&self) -> (r: Option<AnyError>)
        ensures
            r is None <==> self@.contexts.len() == 0,
            r matches Some(c) ==> c@ == (AnyErrorView {
                root: self@.root,
                contexts: self@.contexts.drop_last(),
            }),
    {
        if self.contexts.len() == 0 {
            return None;
        }
        let mut contexts = self.contexts.clone();
        assert(contexts@ =~= self.contexts@);
        contexts.pop();
        let c = AnyError { root: self.root.clone(), contexts };
        assert(c@.contexts =~= self@.contexts.drop_last());
        Some(c)
    }

    /// The categorized failure at the root of the chain, however many layers
    /// of context lie over it; `None` where the root is foreign or one-off.
    pub fn downcast(&self) -> (r: Option<&TcrApiError>)
        ensures
            r is None <==> self@.downcast() is None,
            r matches Some(e) ==> self@.downcast() == Some(*e),
    {
        match &self.root {
            Root::Categorized(e) => Some(e),
            _ => None,
        }
    }
}

/// Carries the result of an operation that can only fail with a categorized
/// failure into the uniform result shape, keeping that failure for `downcast`.
pub fn widen<T>(r: Result<T, TcrApiError>) -> (out: AnyResult<T>)
    ensures
        r is Ok <==> out is Ok,
        r matches Ok(v) ==> out matches Ok(w) && w == v,
        r matches Err(e) ==> out matches Err(a) && a@ == caught(Failure::Categorized(e)),
{
    match r {
        Ok(v) => Ok(v),
        Err(e) => Err(AnyError::from_categorized(e)),
    }
}

} // verus!

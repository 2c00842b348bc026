//! Structured diagnostics: a single message with an optional source span, or a list of
//! diagnostics. Rendering emits one compile error per message, in order.

use vstd::prelude::*;

use proc_macro2::Span;

use crate::literal::{str_literal_content, string_token};

verus! {

broadcast use vstd::std_specs::vec::group_vec_axioms;

#[verifier::external_type_specification]
#[verifier::external_body]
pub struct ExSpan(proc_macro2::Span);

/// One message of a diagnostic, with the span of its first and last token if known.
pub type Leaf = (Seq<char>, Option<(Span, Span)>);

/// `new` is `old` followed by the messages `leaves`.
pub open spec fn extends_with(
    old_msgs: Seq<(String, Option<(Span, Span)>)>,
    new_msgs: Seq<(String, Option<(Span, Span)>)>,
    leaves: Seq<Leaf>,
) -> bool {
    &&& new_msgs.len() == old_msgs.len() + leaves.len()
    &&& forall|i: int| 0 <= i < old_msgs.len() ==> new_msgs[i] == old_msgs[i]
    &&& forall|i: int|
        0 <= i < leaves.len() ==> (#[trigger] new_msgs[old_msgs.len() + i]).0@ == leaves[i].0
            && new_msgs[old_msgs.len() + i].1 == leaves[i].1
}

/// The compile error directive that emits one message.
/// `literal` is the text of a string literal token.
pub open spec fn compile_error_text(literal: Seq<char>) -> Seq<char> {
    "compile_error ! { "@ + literal + " }"@
}

/// The compile error directives of the first `n` string literal tokens, separated by spaces.
pub open spec fn directives_text(literals: Seq<Seq<char>>, n: int) -> Seq<char>
    decreases n,
{
    if n <= 0 || n > literals.len() {
        Seq::empty()
    } else if n == 1 {
        compile_error_text(literals[0])
    } else {
        directives_text(literals, n - 1) + " "@ + compile_error_text(literals[n - 1])
    }
}

/// `literals` are string literal tokens that read back as the messages of `leaves`, in order.
pub open spec fn literals_of(literals: Seq<Seq<char>>, leaves: Seq<Leaf>) -> bool {
    &&& literals.len() == leaves.len()
    &&& forall|i: int|
        0 <= i < literals.len() ==> str_literal_content(#[trigger] literals[i]) == Some(
            leaves[i].0,
        )
}

/// The directives of a prefix depend only on that prefix.
proof fn lemma_directives_prefix(a: Seq<Seq<char>>, b: Seq<Seq<char>>, n: int)
    requires
        0 <= n <= a.len(),
        n <= b.len(),
        forall|k: int| 0 <= k < n ==> a[k] == b[k],
    ensures
        directives_text(a, n) == directives_text(b, n),
    decreases n,
{
    if n > 0 {
        lemma_directives_prefix(a, b, n - 1);
    }
}

/// A diagnostic to emit to the user as an error.
#[derive(Debug)]
pub struct Diagnostic {
    inner: Repr,
}

#[derive(Debug)]
enum Repr {
    Single { text: String, span: Option<(Span, Span)> },
    Multi { diagnostics: Vec<Diagnostic> },
}

impl Diagnostic {
    /// The messages of this diagnostic, in the order they are emitted.
    pub closed spec fn leaves(self) -> Seq<Leaf>
        decreases self, 0nat,
    {
        match self.inner {
            Repr::Single { text, span } => seq![(text@, span)],
            Repr::Multi { diagnostics } => Self::leaves_of(diagnostics, diagnostics@.len()),
        }
    }

    /// The messages of the first `n` diagnostics of `ds`, in order.
    pub open spec fn leaves_of(ds: Vec<Diagnostic>, n: nat) -> Seq<Leaf>
        decreases ds, n,
    {
        if n == 0 || n > ds@.len() {
            Seq::empty()
        } else {
            Self::leaves_of(ds, (n - 1) as nat) + ds@[n - 1].leaves()
        }
    }

    /// A diagnostic with a message and no span.
    pub fn error(text: String) -> (r: Diagnostic)
        ensures
            r.leaves() == seq![(text@, None::<(Span, Span)>)],
    {
        Diagnostic { inner: Repr::Single { text, span: None } }
    }

    /// A diagnostic with a message located at `span`.
    pub fn span_error(span: Span, text: String) -> (r: Diagnostic)
        ensures
            r.leaves() == seq![(text@, Some((span, span)))],
    {
        Diagnostic { inner: Repr::Single { text, span: Some((span, span)) } }
    }

    /// A diagnostic with a message located over a run of tokens, given by their spans: from
    /// the first token to the last. With no tokens, the message has no span.
    pub fn spanned_error(spans: &Vec<Span>, text: String) -> (r: Diagnostic)
        ensures
            spans@.len() == 0 ==> r.leaves() == seq![(text@, None::<(Span, Span)>)],
            spans@.len() > 0 ==> r.leaves() == seq![
                (text@, Some((spans@[0], spans@[spans@.len() - 1]))),
            ],
    {
        let span = if spans.len() > 0 {
            Some((spans[0], spans[spans.len() - 1]))
        } else {
            None
        };
        Diagnostic { inner: Repr::Single { text, span } }
    }

    /// Gathers diagnostics into one: `Ok(())` when there are none, else a diagnostic that
    /// emits all their messages in order.
    pub fn from_vec(diagnostics: Vec<Diagnostic>) -> (r: Result<(), Diagnostic>)
        ensures
            diagnostics@.len() == 0 <==> r is Ok,
            r is Err ==> r->Err_0.leaves() == Self::leaves_of(diagnostics, diagnostics@.len()),
    {
        if diagnostics.len() == 0 {
            Ok(())
        } else {
            Err(Diagnostic { inner: Repr::Multi { diagnostics } })
        }
    }

    /// Appends the messages of this diagnostic to `out`.
    fn collect_messages(&self, out: &mut Vec<(String, Option<(Span, Span)>)>)
        ensures
            extends_with(old(out)@, final(out)@, self.leaves()),
        decreases self, 0nat,
    {
        match &self.inner {
            Repr::Single { text, span } => {
                out.push((text.clone(), *span));
            },
            Repr::Multi { diagnostics } => {
                Self::collect_messages_of(diagnostics, diagnostics.len(), out);
            },
        }
    }

    /// Appends the messages of the first `n` diagnostics of `ds` to `out`.
    fn collect_messages_of(
        ds: &Vec<Diagnostic>,
        n: usize,
        out: &mut Vec<(String, Option<(Span, Span)>)>,
    )
        requires
            n <= ds@.len(),
        ensures
            extends_with(old(out)@, final(out)@, Self::leaves_of(*ds, n as nat)),
        decreases ds, n,
    {
        if n == 0 {
            return;
        }
        let ghost start = out@;
        Self::collect_messages_of(ds, n - 1, out);
        let ghost mid = out@;
        ds[n - 1].collect_messages(out);
        proof {
            let a = Self::leaves_of(*ds, (n - 1) as nat);
            let b = ds@[n - 1].leaves();
            assert(Self::leaves_of(*ds, n as nat) == a + b);
            let k = start.len();
            assert forall|i: int| 0 <= i < (a + b).len() implies (#[trigger] out@[k + i]).0@
                == (a + b)[i].0 && out@[k + i].1 == (a + b)[i].1 by {
                if i < a.len() {
                    assert(out@[k + i] == mid[k + i]);
                } else {
                    assert(out@[mid.len() + (i - a.len())] == out@[k + i]);
                }
            }
        }
    }

    /// The messages of this diagnostic, each with its span, in the order they are emitted.
    pub fn messages(&self) -> (r: Vec<(String, Option<(Span, Span)>)>)
        ensures
            r@.len() == self.leaves().len(),
            forall|i: int|
                0 <= i < r@.len() ==> (#[trigger] r@[i]).0@ == self.leaves()[i].0 && r@[i].1
                    == self.leaves()[i].1,
    {
        let mut out = Vec::new();
        self.collect_messages(&mut out);
        proof {
            assert forall|i: int| 0 <= i < out@.len() implies (#[trigger] out@[i]).0@
                == self.leaves()[i].0 && out@[i].1 == self.leaves()[i].1 by {
                assert(out@[0 + i] == out@[i]);
            }
        }
        out
    }

    /// The compile error directives that emit this diagnostic, as source text: one
    /// `compile_error ! { .. }` per message, in order, each holding a string literal token
    /// that reads back as the message.
    pub fn render(&self) -> (r: String)
        ensures
            exists|literals: Seq<Seq<char>>|
                literals_of(literals, self.leaves()) && r@ == directives_text(
                    literals,
                    literals.len() as int,
                ),
    {
        let msgs = self.messages();
        let mut out = String::new();
        let ghost mut literals: Seq<Seq<char>> = Seq::empty();
        let mut i: usize = 0;
        while i < msgs.len()
            invariant
                i <= msgs@.len(),
                msgs@.len() == self.leaves().len(),
                forall|k: int| 0 <= k < msgs@.len() ==> (#[trigger] msgs@[k]).0@ == self.leaves()[k].0,
                literals.len() == i,
                forall|k: int|
                    0 <= k < i ==> str_literal_content(#[trigger] literals[k]) == Some(
                        self.leaves()[k].0,
                    ),
                out@ == directives_text(literals, i as int),
            decreases msgs@.len() - i,
        {
            if i > 0 {
                out.append(" ");
            }
            out.append("compile_error ! { ");
            let lit = string_token(msgs[i].0.as_str());
            out.append(lit.as_str());
            out.append(" }");
            proof {
                assert(msgs@[i as int].0@ == self.leaves()[i as int].0);
                let prev = literals;
                literals = literals.push(lit@);
                assert(directives_text(literals, i as int) == directives_text(prev, i as int)) by {
                    lemma_directives_prefix(prev, literals, i as int);
                }
                if i == 0 {
                    assert(out@ =~= directives_text(literals, 1));
                } else {
                    assert(out@ =~= directives_text(literals, i + 1));
                }
            }
            i = i + 1;
        }
        assert(literals_of(literals, self.leaves()));
        out
    }

    /// The first message of this diagnostic, if it has one.
    pub fn first_message(&self) -> (r: Option<String>)
        ensures
            self.leaves().len() == 0 ==> r is None,
            self.leaves().len() > 0 ==> r is Some && r->0@ == self.leaves()[0].0,
    {
        let msgs = self.messages();
        if msgs.len() > 0 {
            Some(msgs[0].0.clone())
        } else {
            None
        }
    }
}

} // verus!

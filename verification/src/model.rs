use vstd::prelude::*;

verus! {

// The input to the transformation is an already-parsed `impl` block. The host
// toolchain owns the real syntax tree; this module models exactly the parts
// the transformation reads, as plain values: token text as strings, source
// locations as opaque span identifiers, effect qualifiers as optional spans.

// ---------------------------------------------------------------------------
// Mathematical model
// ---------------------------------------------------------------------------

/// One invocation-argument token of the attribute, e.g. `pub`.
pub ghost struct SpecArgToken {
    pub text: Seq<char>,
    pub span: u64,
}

/// How an argument binds its value.
pub ghost enum SpecPattern {
    /// A simple name, e.g. `baz` in `baz: i32`.
    Named(Seq<char>),
    /// An explicit discard, `_`.
    Discard,
    /// Any other pattern shape (destructuring); unsupported by the
    /// transformation and rejected with a fatal diagnostic.
    Other(Seq<char>),
}

/// One argument of a function signature.
pub ghost enum SpecArg {
    /// A receiver such as `self`, `&self` or `&mut self`, kept as its token
    /// text so the forwarding call can pass it through verbatim.
    Receiver(Seq<char>),
    /// An ordinary `pattern: type` argument. `span` locates the argument.
    Typed { pat: SpecPattern, ty: Seq<char>, span: u64 },
}

/// A declared return type: absent (`()`), or a type's token text.
pub ghost enum SpecRet {
    Default,
    Ty(Seq<char>),
}

/// One function member's signature, as the transformation sees it.
///
/// The three qualifiers hold the span of their keyword when present. A
/// well-formed signature never has both `async` and `const` (the host
/// language forbids it) and carries a receiver only in first position.
pub ghost struct SpecSig {
    pub name: Seq<char>,
    pub inputs: Seq<SpecArg>,
    pub output: SpecRet,
    pub output_span: u64,
    pub asyncness: Option<u64>,
    pub constness: Option<u64>,
    pub unsafety: Option<u64>,
}

impl SpecSig {
    /// Validity carried over from the host language's own grammar.
    pub open spec fn wf(self) -> bool {
        &&& !(self.asyncness is Some && self.constness is Some)
        &&& forall|i: int| 0 < i < self.inputs.len() ==> !(#[trigger] self.inputs[i] is Receiver)
    }
}

/// One member of the `impl` block: a function, or anything else (a constant,
/// a type alias, ...) kept as opaque token text and passed through untouched.
pub ghost enum SpecMember {
    Function(SpecSig),
    Other(Seq<char>),
}

impl SpecMember {
    pub open spec fn wf(self) -> bool {
        match self {
            SpecMember::Function(s) => s.wf(),
            SpecMember::Other(_) => true,
        }
    }
}

/// The annotated `impl` block: its attributes (opaque token text, relocated
/// onto the generated enum), its self type's token text, and its members.
pub ghost struct SpecImplBlock {
    pub attrs: Seq<Seq<char>>,
    pub self_ty: Seq<char>,
    pub items: Seq<SpecMember>,
}

impl SpecImplBlock {
    pub open spec fn wf(self) -> bool {
        forall|i: int| 0 <= i < self.items.len() ==> (#[trigger] self.items[i]).wf()
    }
}

// ---------------------------------------------------------------------------
// Executable model
// ---------------------------------------------------------------------------

/// One invocation-argument token of the attribute.
#[derive(Debug)]
pub struct ArgToken {
    pub text: String,
    pub span: u64,
}

impl View for ArgToken {
    type V = SpecArgToken;

    open spec fn view(&self) -> SpecArgToken {
        SpecArgToken { text: self.text@, span: self.span }
    }
}

impl DeepView for ArgToken {
    type V = SpecArgToken;

    open spec fn deep_view(&self) -> SpecArgToken {
        self@
    }
}

/// How an argument binds its value. See [`SpecPattern`].
#[derive(Debug)]
pub enum Pattern {
    Named(String),
    Discard,
    Other(String),
}

impl View for Pattern {
    type V = SpecPattern;

    open spec fn view(&self) -> SpecPattern {
        match self {
            Pattern::Named(s) => SpecPattern::Named(s@),
            Pattern::Discard => SpecPattern::Discard,
            Pattern::Other(s) => SpecPattern::Other(s@),
        }
    }
}

impl DeepView for Pattern {
    type V = SpecPattern;

    open spec fn deep_view(&self) -> SpecPattern {
        self@
    }
}

impl Clone for Pattern {
    fn clone(&self) -> (res: Self)
        ensures
            res@ == self@,
    {
        match self {
            Pattern::Named(s) => Pattern::Named(s.clone()),
            Pattern::Discard => Pattern::Discard,
            Pattern::Other(s) => Pattern::Other(s.clone()),
        }
    }
}

/// One argument of a function signature. See [`SpecArg`].
#[derive(Debug)]
pub enum Arg {
    Receiver(String),
    Typed { pat: Pattern, ty: String, span: u64 },
}

impl View for Arg {
    type V = SpecArg;

    open spec fn view(&self) -> SpecArg {
        match self {
            Arg::Receiver(s) => SpecArg::Receiver(s@),
            Arg::Typed { pat, ty, span } => SpecArg::Typed { pat: pat@, ty: ty@, span: *span },
        }
    }
}

impl DeepView for Arg {
    type V = SpecArg;

    open spec fn deep_view(&self) -> SpecArg {
        self@
    }
}

impl Clone for Arg {
    fn clone(&self) -> (res: Self)
        ensures
            res@ == self@,
    {
        match self {
            Arg::Receiver(s) => Arg::Receiver(s.clone()),
            Arg::Typed { pat, ty, span } => Arg::Typed {
                pat: pat.clone(),
                ty: ty.clone(),
                span: *span,
            },
        }
    }
}

/// A declared return type. See [`SpecRet`].
#[derive(Debug)]
pub enum Ret {
    Default,
    Ty(String),
}

impl View for Ret {
    type V = SpecRet;

    open spec fn view(&self) -> SpecRet {
        match self {
            Ret::Default => SpecRet::Default,
            Ret::Ty(s) => SpecRet::Ty(s@),
        }
    }
}

impl DeepView for Ret {
    type V = SpecRet;

    open spec fn deep_view(&self) -> SpecRet {
        self@
    }
}

impl Clone for Ret {
    fn clone(&self) -> (res: Self)
        ensures
            res@ == self@,
    {
        match self {
            Ret::Default => Ret::Default,
            Ret::Ty(s) => Ret::Ty(s.clone()),
        }
    }
}

impl Ret {
    /// Whether two return types are the same declared type. The comparison is
    /// over token text; `async` never reaches it, because a signature's
    /// declared return type already omits the suspension wrapper.
    pub fn same_as(&self, other: &Ret) -> (r: bool)
        ensures
            r == (self@ == other@),
    {
        match (self, other) {
            (Ret::Default, Ret::Default) => true,
            (Ret::Ty(a), Ret::Ty(b)) => *a == *b,
            _ => false,
        }
    }
}

/// One function member's signature. See [`SpecSig`].
#[derive(Debug)]
pub struct Signature {
    pub name: String,
    pub inputs: Vec<Arg>,
    pub output: Ret,
    pub output_span: u64,
    pub asyncness: Option<u64>,
    pub constness: Option<u64>,
    pub unsafety: Option<u64>,
}

impl View for Signature {
    type V = SpecSig;

    open spec fn view(&self) -> SpecSig {
        SpecSig {
            name: self.name@,
            inputs: self.inputs.deep_view(),
            output: self.output@,
            output_span: self.output_span,
            asyncness: self.asyncness,
            constness: self.constness,
            unsafety: self.unsafety,
        }
    }
}

impl DeepView for Signature {
    type V = SpecSig;

    open spec fn deep_view(&self) -> SpecSig {
        self@
    }
}

impl Clone for Signature {
    fn clone(&self) -> (res: Self)
        ensures
            res@ == self@,
    {
        let inputs = self.inputs.clone();
        proof {
            assert forall|i: int| 0 <= i < inputs@.len() implies inputs@[i].deep_view()
                == self.inputs@[i].deep_view() by {
                assert(cloned::<Arg>(self.inputs@[i], inputs@[i]));
            }
            assert(inputs.deep_view() =~= self.inputs.deep_view());
        }
        Signature {
            name: self.name.clone(),
            inputs,
            output: self.output.clone(),
            output_span: self.output_span,
            asyncness: self.asyncness,
            constness: self.constness,
            unsafety: self.unsafety,
        }
    }
}

/// One member of the `impl` block. See [`SpecMember`].
#[derive(Debug)]
pub enum Member {
    Function(Signature),
    Other(String),
}

impl View for Member {
    type V = SpecMember;

    open spec fn view(&self) -> SpecMember {
        match self {
            Member::Function(s) => SpecMember::Function(s@),
            Member::Other(s) => SpecMember::Other(s@),
        }
    }
}

impl DeepView for Member {
    type V = SpecMember;

    open spec fn deep_view(&self) -> SpecMember {
        self@
    }
}

impl Clone for Member {
    fn clone(&self) -> (res: Self)
        ensures
            res@ == self@,
    {
        match self {
            Member::Function(s) => Member::Function(s.clone()),
            Member::Other(s) => Member::Other(s.clone()),
        }
    }
}

/// The annotated `impl` block. See [`SpecImplBlock`].
#[derive(Debug)]
pub struct ImplBlock {
    pub attrs: Vec<String>,
    pub self_ty: String,
    pub items: Vec<Member>,
}

impl View for ImplBlock {
    type V = SpecImplBlock;

    open spec fn view(&self) -> SpecImplBlock {
        SpecImplBlock {
            attrs: self.attrs.deep_view(),
            self_ty: self.self_ty@,
            items: self.items.deep_view(),
        }
    }
}

impl DeepView for ImplBlock {
    type V = SpecImplBlock;

    open spec fn deep_view(&self) -> SpecImplBlock {
        self@
    }
}

// ---------------------------------------------------------------------------
// Verified copies of the vector-shaped pieces
// ---------------------------------------------------------------------------

/// Copies a list of opaque token strings.
pub fn clone_strings(v: &Vec<String>) -> (r: Vec<String>)
    ensures
        r.deep_view() == v.deep_view(),
{
    let mut r: Vec<String> = Vec::new();
    let mut i: usize = 0;
    while i < v.len()
        invariant
            0 <= i <= v.len(),
            r@.len() == i,
            forall|j: int| 0 <= j < i ==> r@[j]@ == v@[j]@,
        decreases v.len() - i,
    {
        r.push(v[i].clone());
        i += 1;
    }
    proof {
        assert(r.deep_view() =~= v.deep_view());
    }
    r
}

/// Copies the member list of an `impl` block.
pub fn clone_members(v: &Vec<Member>) -> (r: Vec<Member>)
    ensures
        r.deep_view() == v.deep_view(),
{
    let mut r: Vec<Member> = Vec::new();
    let mut i: usize = 0;
    while i < v.len()
        invariant
            0 <= i <= v.len(),
            r@.len() == i,
            forall|j: int| 0 <= j < i ==> r@[j]@ == v@[j]@,
        decreases v.len() - i,
    {
        r.push(v[i].clone());
        i += 1;
    }
    proof {
        assert(r.deep_view() =~= v.deep_view());
    }
    r
}

} // verus!

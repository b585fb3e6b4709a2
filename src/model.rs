use vstd::prelude::*;
use vstd::string::*;

verus! {

/// A source location.
#[derive(Clone, Copy, Debug, PartialEq, Eq, Structural)]
pub struct Span {
    pub start: u64,
    pub end: u64,
}

/// An identifier of the source, with its location.
#[derive(Clone, Debug)]
pub struct Ident {
    pub name: String,
    pub span: Span,
}

/// A string literal of an option bundle, with its location.
#[derive(Clone, Debug)]
pub struct LitStr {
    pub value: String,
    pub span: Span,
}

/// One token of a type reference. Lifetimes are held without their
/// leading apostrophe.
#[derive(Clone, Debug)]
pub enum TypeToken {
    Ident(String),
    Lifetime(String),
    Punct(char),
}

/// A type reference, as the sequence of its tokens.
#[derive(Clone, Debug)]
pub struct TypeRef {
    pub tokens: Vec<TypeToken>,
}

/// One parameter of a generics clause.
#[derive(Clone, Debug)]
pub enum GenericParam {
    Type(String),
    Lifetime(String),
    Const(String),
}

/// A generics clause.
#[derive(Clone, Debug)]
pub struct Generics {
    pub params: Vec<GenericParam>,
}

/// A visibility marker.
#[derive(Clone, Debug)]
pub enum Visibility {
    Public,
    Crate,
    Restricted(String),
    Inherited,
}

/// An argument of a field resolver.
#[derive(Clone, Debug)]
pub enum MethodArgument {
    Regular(Ident, TypeRef),
    Context(TypeRef),
    Executor,
}

pub enum TokenModel {
    Ident(Seq<char>),
    Lifetime(Seq<char>),
    Punct(char),
}

pub struct IdentModel {
    pub name: Seq<char>,
    pub span: Span,
}

pub enum GenericModel {
    Type(Seq<char>),
    Lifetime(Seq<char>),
    Const(Seq<char>),
}

pub enum VisModel {
    Public,
    Crate,
    Restricted(Seq<char>),
    Inherited,
}

pub enum ArgModel {
    Regular(IdentModel, Seq<TokenModel>),
    Context(Seq<TokenModel>),
    Executor,
}

impl View for Ident {
    type V = IdentModel;

    open spec fn view(&self) -> IdentModel {
        IdentModel { name: self.name@, span: self.span }
    }
}

impl View for TypeToken {
    type V = TokenModel;

    open spec fn view(&self) -> TokenModel {
        match self {
            TypeToken::Ident(s) => TokenModel::Ident(s@),
            TypeToken::Lifetime(s) => TokenModel::Lifetime(s@),
            TypeToken::Punct(c) => TokenModel::Punct(*c),
        }
    }
}

impl View for TypeRef {
    type V = Seq<TokenModel>;

    open spec fn view(&self) -> Seq<TokenModel> {
        self.tokens@.map_values(|t: TypeToken| t@)
    }
}

impl View for GenericParam {
    type V = GenericModel;

    open spec fn view(&self) -> GenericModel {
        match self {
            GenericParam::Type(s) => GenericModel::Type(s@),
            GenericParam::Lifetime(s) => GenericModel::Lifetime(s@),
            GenericParam::Const(s) => GenericModel::Const(s@),
        }
    }
}

impl View for Generics {
    type V = Seq<GenericModel>;

    open spec fn view(&self) -> Seq<GenericModel> {
        self.params@.map_values(|p: GenericParam| p@)
    }
}

impl View for Visibility {
    type V = VisModel;

    open spec fn view(&self) -> VisModel {
        match self {
            Visibility::Public => VisModel::Public,
            Visibility::Crate => VisModel::Crate,
            Visibility::Restricted(s) => VisModel::Restricted(s@),
            Visibility::Inherited => VisModel::Inherited,
        }
    }
}

impl View for MethodArgument {
    type V = ArgModel;

    open spec fn view(&self) -> ArgModel {
        match self {
            MethodArgument::Regular(i, t) => ArgModel::Regular(i@, t@),
            MethodArgument::Context(t) => ArgModel::Context(t@),
            MethodArgument::Executor => ArgModel::Executor,
        }
    }
}

/// A token with any named lifetime replaced by the anonymous one.
pub open spec fn anon_token(t: TokenModel) -> TokenModel {
    match t {
        TokenModel::Lifetime(_) => TokenModel::Lifetime(seq!['_']),
        other => other,
    }
}

/// A type reference with every lifetime replaced by the anonymous one.
pub open spec fn anonymized_spec(t: Seq<TokenModel>) -> Seq<TokenModel> {
    t.map_values(|k: TokenModel| anon_token(k))
}

/// The view of an optional string.
pub open spec fn opt_str(o: Option<String>) -> Option<Seq<char>> {
    match o {
        Some(s) => Some(s@),
        None => None,
    }
}

/// Copies an optional string.
pub fn copy_opt_str(o: &Option<String>) -> (r: Option<String>)
    ensures
        opt_str(r) == opt_str(*o),
{
    match o {
        Some(s) => Some(s.clone()),
        None => None,
    }
}

impl Ident {
    pub fn duplicate(&self) -> (r: Ident)
        ensures
            r@ == self@,
    {
        Ident { name: self.name.clone(), span: self.span }
    }
}

impl TypeToken {
    pub fn duplicate(&self) -> (r: TypeToken)
        ensures
            r@ == self@,
    {
        match self {
            TypeToken::Ident(s) => TypeToken::Ident(s.clone()),
            TypeToken::Lifetime(s) => TypeToken::Lifetime(s.clone()),
            TypeToken::Punct(c) => TypeToken::Punct(*c),
        }
    }
}

impl TypeRef {
    pub fn duplicate(&self) -> (r: TypeRef)
        ensures
            r@ == self@,
    {
        let mut tokens: Vec<TypeToken> = Vec::new();
        let mut i: usize = 0;
        while i < self.tokens.len()
            invariant
                i <= self.tokens@.len(),
                tokens@.len() == i,
                forall|j: int| 0 <= j < i ==> #[trigger] tokens@[j]@ == self.tokens@[j]@,
            decreases self.tokens@.len() - i,
        {
            tokens.push(self.tokens[i].duplicate());
            i = i + 1;
        }
        let r = TypeRef { tokens };
        assert(r@ =~= self@);
        r
    }
}

impl TypeRef {
    /// This type with every lifetime replaced by `'_`, so that it is no
    /// longer tied to the lifetimes of the declaration it came from.
    pub fn lifetimes_anonymized(&self) -> (r: TypeRef)
        ensures
            r@ == anonymized_spec(self@),
    {
        let mut tokens: Vec<TypeToken> = Vec::new();
        let mut i: usize = 0;
        while i < self.tokens.len()
            invariant
                i <= self.tokens@.len(),
                tokens@.len() == i,
                forall|j: int|
                    0 <= j < i ==> #[trigger] tokens@[j]@ == anon_token(self.tokens@[j]@),
            decreases self.tokens@.len() - i,
        {
            let t = match &self.tokens[i] {
                TypeToken::Lifetime(_) => {
                    let anon = String::from_str("_");
                    proof {
                        reveal_strlit("_");
                        assert(anon@ =~= seq!['_']);
                    }
                    TypeToken::Lifetime(anon)
                },
                other => other.duplicate(),
            };
            tokens.push(t);
            i = i + 1;
        }
        let r = TypeRef { tokens };
        assert(r@ =~= anonymized_spec(self@));
        r
    }
}

impl GenericParam {
    pub fn duplicate(&self) -> (r: GenericParam)
        ensures
            r@ == self@,
    {
        match self {
            GenericParam::Type(s) => GenericParam::Type(s.clone()),
            GenericParam::Lifetime(s) => GenericParam::Lifetime(s.clone()),
            GenericParam::Const(s) => GenericParam::Const(s.clone()),
        }
    }
}

impl Generics {
    pub fn duplicate(&self) -> (r: Generics)
        ensures
            r@ == self@,
    {
        let mut params: Vec<GenericParam> = Vec::new();
        let mut i: usize = 0;
        while i < self.params.len()
            invariant
                i <= self.params@.len(),
                params@.len() == i,
                forall|j: int| 0 <= j < i ==> #[trigger] params@[j]@ == self.params@[j]@,
            decreases self.params@.len() - i,
        {
            params.push(self.params[i].duplicate());
            i = i + 1;
        }
        let r = Generics { params };
        assert(r@ =~= self@);
        r
    }
}

impl Visibility {
    pub fn duplicate(&self) -> (r: Visibility)
        ensures
            r@ == self@,
    {
        match self {
            Visibility::Public => Visibility::Public,
            Visibility::Crate => Visibility::Crate,
            Visibility::Restricted(s) => Visibility::Restricted(s.clone()),
            Visibility::Inherited => Visibility::Inherited,
        }
    }
}

} // verus!

use vstd::prelude::*;

verus! {

/// One token of the configuration that follows the attribute on a function.
pub enum AttrToken {
    /// A lifetime, by its name without the apostrophe (`a` for `'a`).
    Lifetime(String),
    Ident(String),
    Comma,
    /// Any other token, by its text.
    Other(String),
}

/// One configuration entry.
pub enum Attr {
    /// The result of a suspending function need not be movable across threads.
    Unsend,
    /// The result of a suspending function need not be shareable across threads.
    Unsync,
    /// The lifetime that bounds the result of a suspending function.
    Lt(String),
}

/// Why a configuration was rejected.
pub enum AttrError {
    /// A word other than `unsend` and `unsync`.
    Unsupported(String),
    /// A comma or another token where an entry should stand.
    ExpectedAttribute,
    /// Two entries with no comma between them.
    ExpectedComma,
}

/// The configuration of the transform.
pub struct Attrs {
    pub unsend: bool,
    pub unsync: bool,
    /// The bounding lifetime, by name; `static` when none is given.
    pub lt: String,
}

pub open spec fn is_word(t: AttrToken, word: Seq<char>) -> bool {
    match t {
        AttrToken::Ident(n) => n@ == word,
        _ => false,
    }
}

/// Whether `t` is a configuration entry.
pub open spec fn is_entry(t: AttrToken) -> bool {
    t is Lifetime || is_word(t, "unsend"@) || is_word(t, "unsync"@)
}

/// Entries stand at even positions, commas between them, a trailing comma allowed.
pub open spec fn token_fits(toks: Seq<AttrToken>, i: int) -> bool {
    if i % 2 == 0 {
        is_entry(toks[i])
    } else {
        toks[i] is Comma
    }
}

/// Whether every token stands where the grammar lets it.
pub open spec fn tokens_fit(toks: Seq<AttrToken>) -> bool {
    forall|i: int| 0 <= i < toks.len() ==> token_fits(toks, i)
}

/// Whether `toks` holds the word `word` anywhere.
pub open spec fn has_word(toks: Seq<AttrToken>, word: Seq<char>) -> bool {
    exists|i: int| 0 <= i < toks.len() && is_word(toks[i], word)
}

/// Whether `e` is the error for the first token of `toks` that does not fit.
pub open spec fn first_error(e: AttrError, toks: Seq<AttrToken>) -> bool {
    exists|i: int|
        0 <= i < toks.len() && !token_fits(toks, i) && (forall|j: int|
            0 <= j < i ==> token_fits(toks, j)) && error_at(e, toks, i)
}

/// The error reported for the token at `i`, the first one that does not fit.
pub open spec fn error_at(e: AttrError, toks: Seq<AttrToken>, i: int) -> bool {
    if i % 2 == 0 {
        match toks[i] {
            AttrToken::Ident(n) => e matches AttrError::Unsupported(m) && m@ == n@,
            _ => e is ExpectedAttribute,
        }
    } else {
        e is ExpectedComma
    }
}

/// The name of the last lifetime among `toks`, or `static` where there is none.
pub open spec fn lifetime_of(toks: Seq<AttrToken>) -> Seq<char>
    decreases toks.len(),
{
    if toks.len() == 0 {
        "static"@
    } else {
        match toks.last() {
            AttrToken::Lifetime(n) => n@,
            _ => lifetime_of(toks.drop_last()),
        }
    }
}

/// Whether `r` is what parsing the single token `t` as an entry gives.
pub open spec fn attr_result(t: AttrToken, r: Result<Attr, AttrError>) -> bool {
    match t {
        AttrToken::Lifetime(n) => r matches Ok(Attr::Lt(m)) && m@ == n@,
        AttrToken::Ident(n) => if n@ == "unsend"@ {
            r matches Ok(Attr::Unsend)
        } else if n@ == "unsync"@ {
            r matches Ok(Attr::Unsync)
        } else {
            r matches Err(AttrError::Unsupported(m)) && m@ == n@
        },
        _ => r matches Err(AttrError::ExpectedAttribute),
    }
}

impl Attr {
    /// Reads one configuration entry: a lifetime, `unsend` or `unsync`.
    pub fn parse(tok: &AttrToken) -> (r: Result<Attr, AttrError>)
        ensures
            attr_result(*tok, r),
    {
        match tok {
            AttrToken::Lifetime(n) => Ok(Attr::Lt(n.clone())),
            AttrToken::Ident(n) => {
                let unsend = "unsend".to_owned();
                let unsync = "unsync".to_owned();
                if n.eq(&unsend) {
                    Ok(Attr::Unsend)
                } else if n.eq(&unsync) {
                    Ok(Attr::Unsync)
                } else {
                    Err(AttrError::Unsupported(n.clone()))
                }
            },
            _ => Err(AttrError::ExpectedAttribute),
        }
    }
}

impl Attrs {
    /// Reads a comma-separated configuration. Without entries, both thread-safety
    /// guarantees are kept and the lifetime is `static`; a later lifetime
    /// replaces an earlier one.
    pub fn parse(tokens: &Vec<AttrToken>) -> (r: Result<Attrs, AttrError>)
        ensures
            r is Ok <==> tokens_fit(tokens@),
            r matches Err(e) ==> first_error(e, tokens@),
            r matches Ok(a) ==> {
                &&& a.unsend == has_word(tokens@, "unsend"@)
                &&& a.unsync == has_word(tokens@, "unsync"@)
                &&& a.lt@ == lifetime_of(tokens@)
            },
    {
        let mut this = Attrs { unsend: false, unsync: false, lt: "static".to_owned() };
        let mut i: usize = 0;
        while i < tokens.len()
            invariant
                0 <= i <= tokens@.len(),
                forall|j: int| 0 <= j < i ==> token_fits(tokens@, j),
                this.unsend == exists|j: int| 0 <= j < i && is_word(tokens@[j], "unsend"@),
                this.unsync == exists|j: int| 0 <= j < i && is_word(tokens@[j], "unsync"@),
                this.lt@ == lifetime_of(tokens@.take(i as int)),
            decreases tokens@.len() - i,
        {
            proof {
                reveal_strlit("unsend");
                reveal_strlit("unsync");
                assert("unsend"@[3] != "unsync"@[3]);
            }
            assert(tokens@.take(i + 1).drop_last() =~= tokens@.take(i as int));
            if i % 2 == 0 {
                match Attr::parse(&tokens[i]) {
                    Err(e) => {
                        assert(!token_fits(tokens@, i as int));
                        assert(error_at(e, tokens@, i as int));
                        return Err(e);
                    },
                    Ok(Attr::Unsend) => {
                        this.unsend = true;
                    },
                    Ok(Attr::Unsync) => {
                        this.unsync = true;
                    },
                    Ok(Attr::Lt(n)) => {
                        this.lt = n;
                    },
                }
            } else {
                match &tokens[i] {
                    AttrToken::Comma => {},
                    _ => {
                        assert(!token_fits(tokens@, i as int));
                        return Err(AttrError::ExpectedComma);
                    },
                }
            }
            i = i + 1;
        }
        assert(tokens@.take(i as int) =~= tokens@);
        Ok(this)
    }
}

/// The calling convention that a function declares.
pub enum AbiDecl {
    /// No `extern` at all.
    Default,
    /// `extern` without a name.
    Unnamed,
    /// `extern "name"`.
    Named(String),
}

/// One parameter of a function, by its shape.
pub enum FnInput {
    /// `self`, in any of its forms.
    Receiver,
    /// A parameter with a declared type.
    Typed,
}

/// What the transform needs to know of a function's signature.
pub struct FnSig {
    pub abi: AbiDecl,
    pub is_async: bool,
    /// Whether the signature declares a return type.
    pub has_output: bool,
    pub inputs: Vec<FnInput>,
}

/// A type whose ABI stability the generated body asserts.
#[derive(Debug, Clone, Copy, PartialEq, Eq, Structural)]
pub enum StableAssert {
    /// The declared return type.
    Output,
    /// The enclosing type, for a receiver.
    SelfType,
    /// The type of the parameter at this position.
    Input(usize),
}

/// The calling convention that the generated function carries.
#[derive(Debug, Clone, Copy, PartialEq, Eq, Structural)]
pub enum CallConv {
    /// `extern "C"`.
    C,
    /// The convention as the function declared it.
    Declared,
}

/// The return type of a suspending function, lowered to a dynamically
/// dispatched, heap-owned future.
pub struct FutureDyn {
    /// Whether the future yields `()`, the function declaring no return type.
    pub unit_output: bool,
    /// The lifetime that bounds the object.
    pub lifetime: String,
    /// Whether the future must be movable across threads.
    pub send: bool,
    /// Whether the future must be shareable across threads.
    pub sync: bool,
}

/// The return type and body of the generated function.
pub enum FnOutput {
    /// Return type and body stay as written.
    Unchanged,
    /// The body is boxed and turned into this object.
    DynFuture(FutureDyn),
}

/// The plan for the generated function.
pub struct StableFn {
    pub conv: CallConv,
    /// The assertions that open the body, in order.
    pub asserts: Vec<StableAssert>,
    pub output: FnOutput,
}

/// Why a function cannot be stabilized.
pub enum StabbyError {
    Attr(AttrError),
    /// A declared calling convention outside the stable ones.
    UnsupportedAbi(String),
}

/// The calling conventions whose layout is stable.
pub open spec fn stable_abi_name(name: Seq<char>) -> bool {
    ||| name == "C"@
    ||| name == "system"@
    ||| name == "stdcall"@
    ||| name == "aapcs"@
    ||| name == "cdecl"@
    ||| name == "fastcall"@
    ||| name == "win64"@
    ||| name == "sysv64"@
}

/// The assertion for the parameter at `i`.
pub open spec fn input_assert(inputs: Seq<FnInput>, i: int) -> StableAssert {
    match inputs[i] {
        FnInput::Receiver => StableAssert::SelfType,
        FnInput::Typed => StableAssert::Input(i as usize),
    }
}

/// The return type first, where one is declared, then each parameter in order.
pub open spec fn asserts_of(sig: FnSig) -> Seq<StableAssert> {
    (if sig.has_output {
        seq![StableAssert::Output]
    } else {
        Seq::empty()
    }).add(Seq::new(sig.inputs@.len(), |i: int| input_assert(sig.inputs@, i)))
}

fn is_stable_abi(name: &String) -> (r: bool)
    ensures
        r == stable_abi_name(name@),
{
    name.eq(&"C".to_owned()) || name.eq(&"system".to_owned()) || name.eq(&"stdcall".to_owned())
        || name.eq(&"aapcs".to_owned()) || name.eq(&"cdecl".to_owned()) || name.eq(
        &"fastcall".to_owned(),
    ) || name.eq(&"win64".to_owned()) || name.eq(&"sysv64".to_owned())
}

/// What planning `sig` under the configuration `toks` gives.
pub open spec fn plans(toks: Seq<AttrToken>, sig: FnSig, r: Result<StableFn, StabbyError>) -> bool {
    &&& (!tokens_fit(toks) <==> r matches Err(StabbyError::Attr(_)))
    &&& (r matches Err(StabbyError::Attr(e)) ==> first_error(e, toks))
    &&& tokens_fit(toks) ==> match sig.abi {
        AbiDecl::Named(n) => if stable_abi_name(n@) {
            r matches Ok(f) && f.conv == CallConv::Declared
        } else {
            r matches Err(StabbyError::UnsupportedAbi(m)) && m@ == n@
        },
        _ => r matches Ok(f) && f.conv == CallConv::C,
    }
    &&& (r matches Ok(f) ==> {
        &&& f.asserts@ == asserts_of(sig)
        &&& !sig.is_async ==> f.output is Unchanged
        &&& sig.is_async ==> (f.output matches FnOutput::DynFuture(d) && {
            &&& d.unit_output == !sig.has_output
            &&& d.lifetime@ == lifetime_of(toks)
            &&& d.send == !has_word(toks, "unsend"@)
            &&& d.sync == !has_word(toks, "unsync"@)
        })
    })
}

/// A suspending function planned without configuration returns a future
/// object that must be both movable and shareable across threads, bounded by
/// the `static` lifetime.
pub proof fn lemma_async_default_is_send_sync(sig: FnSig, r: Result<StableFn, StabbyError>)
    requires
        plans(Seq::empty(), sig, r),
        sig.is_async,
        !(sig.abi is Named),
    ensures
        r matches Ok(f) && (f.output matches FnOutput::DynFuture(d) && d.send && d.sync
            && d.lifetime@ == "static"@),
{
    let toks = Seq::<AttrToken>::empty();
    assert(tokens_fit(toks));
    assert(!has_word(toks, "unsend"@));
    assert(!has_word(toks, "unsync"@));
}

/// A suspending function planned with `unsend` alone returns a future object
/// that need not be movable across threads but must still be shareable.
pub proof fn lemma_async_unsend_keeps_sync(
    toks: Seq<AttrToken>,
    sig: FnSig,
    r: Result<StableFn, StabbyError>,
)
    requires
        plans(toks, sig, r),
        toks.len() == 1,
        is_word(toks[0], "unsend"@),
        sig.is_async,
        !(sig.abi is Named),
    ensures
        r matches Ok(f) && (f.output matches FnOutput::DynFuture(d) && !d.send && d.sync),
{
    reveal_strlit("unsend");
    reveal_strlit("unsync");
    assert("unsend"@[3] != "unsync"@[3]);
    assert(token_fits(toks, 0));
    assert(tokens_fit(toks));
    assert(has_word(toks, "unsend"@));
}

/// A declared calling convention outside the stable ones is rejected, naming
/// the convention, whatever else the function holds.
pub proof fn lemma_unstable_abi_rejected(
    toks: Seq<AttrToken>,
    sig: FnSig,
    r: Result<StableFn, StabbyError>,
)
    requires
        plans(toks, sig, r),
        tokens_fit(toks),
        sig.abi matches AbiDecl::Named(n) && !stable_abi_name(n@),
    ensures
        r matches Err(StabbyError::UnsupportedAbi(m)) && sig.abi matches AbiDecl::Named(n) && m@
            == n@,
{
}

/// Every typed parameter, and the return type where one is declared, has its
/// stability asserted in the generated body, so a parameter of an unstable
/// type fails the build at that assertion.
pub proof fn lemma_every_type_asserted(
    toks: Seq<AttrToken>,
    sig: FnSig,
    r: Result<StableFn, StabbyError>,
    i: int,
)
    requires
        plans(toks, sig, r),
        r is Ok,
        0 <= i < sig.inputs@.len(),
        sig.inputs@[i] is Typed,
    ensures
        r matches Ok(f) && f.asserts@.contains(StableAssert::Input(i as usize)),
        r matches Ok(f) && (sig.has_output ==> f.asserts@.contains(StableAssert::Output)),
{
    let f = r->Ok_0;
    let k: int = if sig.has_output { i + 1 } else { i };
    assert(f.asserts@[k] == StableAssert::Input(i as usize));
    if sig.has_output {
        assert(f.asserts@[0] == StableAssert::Output);
    }
}

/// Plans the stable form of a function: checks the configuration and the
/// calling convention, lists the types whose stability the body asserts, and
/// for a suspending function lowers the return type to a boxed future object.
pub fn stabby(attr_tokens: &Vec<AttrToken>, sig: &FnSig) -> (r: Result<StableFn, StabbyError>)
    ensures
        plans(attr_tokens@, *sig, r),
{
    let attrs = match Attrs::parse(attr_tokens) {
        Ok(a) => a,
        Err(e) => {
            return Err(StabbyError::Attr(e));
        },
    };
    let conv = match &sig.abi {
        AbiDecl::Named(n) => {
            if is_stable_abi(n) {
                CallConv::Declared
            } else {
                return Err(StabbyError::UnsupportedAbi(n.clone()));
            }
        },
        _ => CallConv::C,
    };
    let mut asserts: Vec<StableAssert> = Vec::new();
    if sig.has_output {
        asserts.push(StableAssert::Output);
    }
    let ghost head = asserts@;
    let mut i: usize = 0;
    while i < sig.inputs.len()
        invariant
            0 <= i <= sig.inputs@.len(),
            asserts@ == head.add(Seq::new(i as nat, |k: int| input_assert(sig.inputs@, k))),
        decreases sig.inputs@.len() - i,
    {
        let a = match &sig.inputs[i] {
            FnInput::Receiver => StableAssert::SelfType,
            FnInput::Typed => StableAssert::Input(i),
        };
        asserts.push(a);
        assert(asserts@ =~= head.add(
            Seq::new((i + 1) as nat, |k: int| input_assert(sig.inputs@, k)),
        ));
        i = i + 1;
    }
    assert(asserts@ =~= asserts_of(*sig));
    let output = if sig.is_async {
        FnOutput::DynFuture(
            FutureDyn {
                unit_output: !sig.has_output,
                lifetime: attrs.lt,
                send: !attrs.unsend,
                sync: !attrs.unsync,
            },
        )
    } else {
        FnOutput::Unchanged
    };
    Ok(StableFn { conv, asserts, output })
}

} // verus!

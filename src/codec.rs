//! The codec pass over a module: parse it with the chosen sections, demangle
//! every function name that is a mangled Rust symbol, and emit it again.
//!
//! The codec is never asked to rewrite DWARF debug sections, so they do not
//! survive the pass: walrus parses them unchecked and panics while emitting
//! when they do not convert, and no call tells such sections apart
//! beforehand. With DWARF off, emitting does not touch them.
use vstd::prelude::*;
use crate::error;

verus! {

#[verifier::external_type_specification]
#[verifier::external_body]
pub struct ExModule(walrus::Module);

#[verifier::external_type_specification]
#[verifier::external_body]
pub struct ExAnyhowError(anyhow::Error);

/// The names of a module's functions, in the codec's order.
pub uninterp spec fn function_names(m: walrus::Module) -> Seq<Option<Seq<char>>>;

/// What a module was parsed from: the bytes, and whether the name section
/// and the producers section were requested.
pub uninterp spec fn source_of(m: walrus::Module) -> (Seq<u8>, bool, bool);

/// The function names of the module the codec parses from `bytes` with the
/// given section choices, or `None` when it rejects the input.
pub uninterp spec fn parse_result(
    bytes: Seq<u8>,
    names: bool,
    producers: bool,
) -> Option<Seq<Option<Seq<char>>>>;

/// The bytes the codec emits for the module parsed from `source` whose
/// function names were then set to `names`.
pub uninterp spec fn encoding(
    source: (Seq<u8>, bool, bool),
    names: Seq<Option<Seq<char>>>,
) -> Seq<u8>;

/// The demangled form of a symbol, when it is a mangled Rust symbol.
pub uninterp spec fn demangled_of(s: Seq<char>) -> Option<Seq<char>>;

/// Relies on `walrus::ModuleConfig` (`new`, `generate_dwarf`,
/// `generate_name_section`, `generate_producers_section`, `strict_validate`)
/// and `ModuleConfig::parse`: parses `bytes`, without DWARF rewriting, into a
/// module that emits the requested sections. Whether it succeeds, and the
/// module it builds, depend on the bytes and the settings alone.
#[verifier::external_body]
fn parse_module(bytes: &[u8], names: bool, producers: bool) -> (r: Result<
    walrus::Module,
    anyhow::Error,
>)
    ensures
        r is Ok == parse_result(bytes@, names, producers).is_some(),
        r is Ok ==> source_of(r->Ok_0) == (bytes@, names, producers),
        r is Ok ==> function_names(r->Ok_0) == parse_result(bytes@, names, producers).unwrap(),
{
    walrus::ModuleConfig::new()
        .generate_dwarf(false)
        .generate_name_section(names)
        .generate_producers_section(producers)
        .strict_validate(false)
        .parse(bytes)
}

/// Relies on `walrus::ModuleFunctions::iter`: the name of each function, in
/// the arena's order.
#[verifier::external_body]
fn module_function_names(m: &walrus::Module) -> (r: Vec<Option<String>>)
    ensures
        r@.len() == function_names(*m).len(),
        forall|i: int|
            0 <= i < r@.len() ==> (match #[trigger] r@[i] {
                Some(s) => function_names(*m)[i] == Some(s@),
                None => function_names(*m)[i].is_none(),
            }),
{
    m.funcs.iter().map(|f| f.name.clone()).collect()
}

/// Relies on `walrus::ModuleFunctions::iter` and `get_mut`: sets the name of
/// the `i`-th function and of no other.
#[verifier::external_body]
fn set_function_name(m: &mut walrus::Module, i: usize, name: String)
    requires
        i < function_names(*old(m)).len(),
    ensures
        function_names(*final(m)) == function_names(*old(m)).update(i as int, Some(name@)),
        source_of(*final(m)) == source_of(*old(m)),
{
    let id = m.funcs.iter().nth(i).unwrap().id();
    m.funcs.get_mut(id).name = Some(name);
}

/// Relies on `walrus::Module::emit_wasm`: the encoded module, which depends
/// on what the module was parsed from and on its function names alone (the
/// only changes this library makes to a parsed module). Every module here is
/// parsed without DWARF rewriting, the one part of emitting that panics on
/// what parsing accepted.
#[verifier::external_body]
fn emit_module(m: &mut walrus::Module) -> (r: Vec<u8>)
    ensures
        r@ == encoding(source_of(*old(m)), function_names(*old(m))),
{
    m.emit_wasm()
}

/// Relies on `rustc_demangle::try_demangle` and the `Display` of its result:
/// the demangled symbol, or `None` when `s` is not a mangled Rust symbol.
#[verifier::external_body]
fn try_demangle(s: &str) -> (r: Option<String>)
    ensures
        r.is_some() == demangled_of(s@).is_some(),
        r.is_some() ==> r.unwrap()@ == demangled_of(s@).unwrap(),
{
    rustc_demangle::try_demangle(s).ok().map(|d| d.to_string())
}

/// Relies on the alternate `Display` of `anyhow::Error`: the error and its
/// causes as one line.
#[verifier::external_body]
fn codec_error_text(e: &anyhow::Error) -> (r: String) {
    format!("{:#}", e)
}

/// A function name after demangling: the demangled symbol where there is
/// one, else the name unchanged.
pub open spec fn demangled_name(n: Option<Seq<char>>) -> Option<Seq<char>> {
    match n {
        Some(s) => match demangled_of(s) {
            Some(d) => Some(d),
            None => Some(s),
        },
        None => None,
    }
}

/// Every function name of a module after demangling.
pub open spec fn demangled_names(ns: Seq<Option<Seq<char>>>) -> Seq<Option<Seq<char>>> {
    ns.map_values(|n: Option<Seq<char>>| demangled_name(n))
}

/// The new name of one function, given its current name: the demangled
/// symbol, or `None` where the name stays as it is.
pub fn rename_for(name: &Option<String>) -> (r: Option<String>)
    ensures
        r.is_some() ==> name.is_some() && demangled_of(name.unwrap()@) == Some(r.unwrap()@),
        r.is_none() ==> name.is_none() || demangled_of(name.unwrap()@).is_none(),
{
    match name {
        Some(n) => try_demangle(n.as_str()),
        None => None,
    }
}

/// Demangles the name of every function of `m`; a name that is no mangled
/// symbol stays as it is.
pub fn demangle_functions(m: &mut walrus::Module)
    ensures
        function_names(*final(m)) == demangled_names(function_names(*old(m))),
        source_of(*final(m)) == source_of(*old(m)),
{
    let names = module_function_names(m);
    let ghost orig = function_names(*m);
    let ghost src = source_of(*m);
    let n = names.len();
    let mut i: usize = 0;
    while i < n
        invariant
            n == names@.len(),
            n == orig.len(),
            i <= n,
            function_names(*m).len() == n,
            source_of(*m) == src,
            forall|j: int|
                0 <= j < n ==> (match #[trigger] names@[j] {
                    Some(s) => orig[j] == Some(s@),
                    None => orig[j].is_none(),
                }),
            forall|j: int| 0 <= j < i ==> #[trigger] function_names(*m)[j] == demangled_name(orig[j]),
            forall|j: int| i <= j < n ==> #[trigger] function_names(*m)[j] == orig[j],
        decreases n - i,
    {
        let renamed = rename_for(&names[i]);
        match renamed {
            Some(d) => {
                set_function_name(m, i, d);
            },
            None => {},
        }
        assert(function_names(*m)[i as int] == demangled_name(orig[i as int]));
        i = i + 1;
    }
    assert(function_names(*m) =~= demangled_names(orig));
}

/// Re-encodes a module: parsed with the name and producers sections as
/// requested, every function name demangled, DWARF sections left out. Fails
/// only when the codec rejects the input.
pub fn process_module(bytes: &[u8], name_section: bool, producers_section: bool) -> (r: Result<
    Vec<u8>,
    error::DriverError,
>)
    ensures
        r is Ok == parse_result(bytes@, name_section, producers_section).is_some(),
        r is Ok ==> r->Ok_0@ == encoding(
            (bytes@, name_section, producers_section),
            demangled_names(parse_result(bytes@, name_section, producers_section).unwrap()),
        ),
        r is Err ==> (r->Err_0 is Message),
{
    match parse_module(bytes, name_section, producers_section) {
        Ok(mut module) => {
            demangle_functions(&mut module);
            Ok(emit_module(&mut module))
        },
        Err(e) => Err(error::DriverError::Message { text: codec_error_text(&e) }),
    }
}

} // verus!

//! The constants that a function of the C interface gets for itself and for
//! each of its parameters, which its errors report: `FN_NAME` holds the
//! function's name, and `ARG_<NAME>` the name of each named parameter. The
//! function keeps its attributes, visibility and signature, and its
//! statements follow the constants unchanged.

use vstd::prelude::*;

verus! {

/// The upper-case form of a string, as `str::to_uppercase` computes it.
pub uninterp spec fn spec_to_uppercase(s: Seq<char>) -> Seq<char>;

/// Calls `str::to_uppercase`, which maps each character to its Unicode
/// upper-case form; the result is named, as a function of the string alone.
#[verifier::external_body]
fn to_uppercase(s: &str) -> (r: String)
    ensures
        r@ == spec_to_uppercase(s@),
{
    s.to_uppercase()
}

/// The name of the constant that holds the name of the parameter `name`.
pub open spec fn spec_arg_const_name(name: Seq<char>) -> Seq<char> {
    "ARG_"@ + spec_to_uppercase(name)
}

/// Gives the name of the constant that holds the name of the parameter `name`.
pub fn arg_name_const_identifier(name: &str) -> (r: String)
    ensures
        r@ == spec_arg_const_name(name@),
{
    let mut r = String::from_str("ARG_");
    let upper = to_uppercase(name);
    r.append(upper.as_str());
    r
}

/// A parameter of a function, as its declaration writes it: `self` in some
/// form, `_`, a plain name, or a destructuring pattern.
pub enum Param {
    Receiver,
    Wildcard,
    Ident(String),
    Destructuring,
}

/// A constant to declare, `const <const_name>: *const c_char = c"<value>".as_ptr();`:
/// its name, and the text of the C string that it holds.
pub struct CStrConst {
    pub const_name: String,
    pub value: String,
}

/// The constants, as (constant name, parameter name), that the parameters
/// give: none for `self` or `_`, one for each plain name; a destructuring
/// pattern anywhere gives no list at all.
pub open spec fn spec_reflect_params(params: Seq<Param>) -> Option<Seq<(Seq<char>, Seq<char>)>>
    decreases params.len(),
{
    if params.len() == 0 {
        Some(Seq::empty())
    } else {
        match spec_reflect_params(params.drop_last()) {
            None => None,
            Some(prev) => match params.last() {
                Param::Receiver => Some(prev),
                Param::Wildcard => Some(prev),
                Param::Ident(n) => Some(prev.push((spec_arg_const_name(n@), n@))),
                Param::Destructuring => None,
            },
        }
    }
}

/// The view of a list of constants, as (constant name, text) pairs.
pub open spec fn arg_consts_view(v: Seq<CStrConst>) -> Seq<(Seq<char>, Seq<char>)> {
    v.map_values(|c: CStrConst| (c.const_name@, c.value@))
}

/// The constant of a parameter, if it gets one: a plain name `n` gets
/// `ARG_` followed by `n` in upper case, holding `n`.
pub open spec fn param_const(p: Param) -> Option<(Seq<char>, Seq<char>)> {
    match p {
        Param::Ident(n) => Some(("ARG_"@ + spec_to_uppercase(n@), n@)),
        _ => None,
    }
}

/// The parameters give no constants when one of them is a destructuring
/// pattern; otherwise they give, in order, one constant for each plain name
/// and none for the others.
pub proof fn lemma_reflect_params_are_the_plain_names(params: Seq<Param>)
    ensures
        spec_reflect_params(params) == if exists|i: int|
            0 <= i < params.len() && #[trigger] params[i] is Destructuring {
            None::<Seq<(Seq<char>, Seq<char>)>>
        } else {
            Some(params.filter_map(|p: Param| param_const(p)))
        },
    decreases params.len(),
{
    if params.len() > 0 {
        let init = params.drop_last();
        lemma_reflect_params_are_the_plain_names(init);
        if exists|i: int| 0 <= i < init.len() && #[trigger] init[i] is Destructuring {
            let i = choose|i: int| 0 <= i < init.len() && #[trigger] init[i] is Destructuring;
            assert(params[i] is Destructuring);
        } else if params.last() is Destructuring {
            assert(params[params.len() - 1] is Destructuring);
        } else {
            assert forall|i: int| 0 <= i < params.len() implies !(#[trigger] params[i] is Destructuring) by {
                if i < init.len() {
                    assert(init[i] == params[i]);
                }
            }
        }
    }
}

proof fn lemma_reflect_none_stays(params: Seq<Param>, i: int)
    requires
        0 <= i <= params.len(),
        spec_reflect_params(params.subrange(0, i)) is None,
    ensures
        spec_reflect_params(params) is None,
    decreases params.len() - i,
{
    if i < params.len() {
        let next = params.subrange(0, i + 1);
        assert(next.drop_last() =~= params.subrange(0, i));
        lemma_reflect_none_stays(params, i + 1);
    } else {
        assert(params.subrange(0, i) =~= params);
    }
}

/// Lists the constants for the parameters `params` of a function of the
/// interface, or `None` where a parameter is a destructuring pattern.
pub fn reflect_params(params: &Vec<Param>) -> (r: Option<Vec<CStrConst>>)
    ensures
        match r {
            Some(v) => spec_reflect_params(params@) == Some(arg_consts_view(v@)),
            None => spec_reflect_params(params@) is None,
        },
{
    let mut out: Vec<CStrConst> = Vec::new();
    let n = params.len();
    let mut i: usize = 0;
    assert(params@.subrange(0, 0) =~= Seq::<Param>::empty());
    while i < n
        invariant
            n == params@.len(),
            i <= n,
            spec_reflect_params(params@.subrange(0, i as int)) == Some(arg_consts_view(out@)),
        decreases n - i,
    {
        let ghost prev = out@;
        assert(params@.subrange(0, i + 1).drop_last() =~= params@.subrange(0, i as int));
        assert(params@.subrange(0, i + 1).last() == params@[i as int]);
        match &params[i] {
            Param::Receiver => {},
            Param::Wildcard => {},
            Param::Ident(name) => {
                let c = CStrConst {
                    const_name: arg_name_const_identifier(name.as_str()),
                    value: name.clone(),
                };
                out.push(c);
                assert(arg_consts_view(out@) =~= arg_consts_view(prev).push(
                    (spec_arg_const_name(name@), name@),
                ));
            },
            Param::Destructuring => {
                proof {
                    lemma_reflect_none_stays(params@, i + 1);
                }
                return None;
            },
        }
        i = i + 1;
    }
    assert(params@.subrange(0, n as int) =~= params@);
    Some(out)
}

/// A function of the C interface with its constants: `head` (its attributes,
/// visibility and signature) unchanged, then the body made of the constant
/// for its name, the constants for its parameters, and its statements.
pub struct ReflectedFn<H, S> {
    pub head: H,
    pub fn_const: CStrConst,
    pub arg_consts: Vec<CStrConst>,
    pub stmts: Vec<S>,
}

/// The message of the compile error for a parameter written as a
/// destructuring pattern.
pub open spec fn spec_destructuring_message() -> Seq<char> {
    "c_str_consts: arguments must be simple identifiers, not destructuring patterns"@
}

/// No name given to a C string literal holds a NUL character.
pub open spec fn params_c_compatible(params: Seq<Param>) -> bool {
    forall|i: int|
        0 <= i < params.len() ==> (#[trigger] params[i] matches Param::Ident(n) ==> !n@.contains(
            '\0',
        ))
}

/// Gives the function named `fn_name`, with the parameters `params` and the
/// statements `stmts`, its constants; a parameter written as a destructuring
/// pattern gives the compile error's message instead.
pub fn c_interface_reflect<H, S>(head: H, fn_name: &str, params: &Vec<Param>, stmts: Vec<S>) -> (r:
    Result<ReflectedFn<H, S>, String>)
    requires
        !fn_name@.contains('\0'),
        params_c_compatible(params@),
    ensures
        match spec_reflect_params(params@) {
            None => r matches Err(m) && m@ == spec_destructuring_message(),
            Some(consts) => r matches Ok(f) && f.head == head && f.fn_const.const_name@
                == "FN_NAME"@ && f.fn_const.value@ == fn_name@ && arg_consts_view(f.arg_consts@)
                == consts && f.stmts@ == stmts@,
        },
{
    match reflect_params(params) {
        None => Err(
            String::from_str(
                "c_str_consts: arguments must be simple identifiers, not destructuring patterns",
            ),
        ),
        Some(arg_consts) => Ok(
            ReflectedFn {
                head,
                fn_const: CStrConst {
                    const_name: String::from_str("FN_NAME"),
                    value: String::from_str(fn_name),
                },
                arg_consts,
                stmts,
            },
        ),
    }
}

} // verus!

//! Declaration Synthesizer: renders one C-style prototype line per scanned
//! signature, using the Type Mapper for every type keyword.

use vstd::prelude::*;

use crate::mapper::map_type;
use crate::mapper::map_type_spec;
use crate::sig::FunctionSignature;
use crate::sig::ParamView;
use crate::sig::SigView;

verus! {

/// Token a parameter contributes to the argument list: mapped keyword and
/// unchanged name for a typed parameter; the empty token for a
/// receiver-style parameter without a type, a documented degenerate case
/// that is rendered rather than rejected.
pub open spec fn param_token(p: ParamView) -> Seq<char> {
    match p.ty {
        Some(t) => map_type_spec(t) + " "@ + p.name,
        None => Seq::<char>::empty(),
    }
}

/// The argument list: parameter tokens in declaration order, separated by a
/// comma and a space, with no leading or trailing separator.
pub open spec fn params_text(params: Seq<ParamView>) -> Seq<char>
    decreases params.len(),
{
    if params.len() == 0 {
        Seq::<char>::empty()
    } else if params.len() == 1 {
        param_token(params[0])
    } else {
        params_text(params.drop_last()) + ", "@ + param_token(params.last())
    }
}

/// Keyword rendered for the return type: the mapped type name, or `void`
/// where the signature declares none.
pub open spec fn ret_keyword(ret: Option<Seq<char>>) -> Seq<char> {
    match ret {
        Some(t) => map_type_spec(t),
        None => "void"@,
    }
}

/// One prototype line, exactly `<ret> <name>(<args>);`.
pub open spec fn render_spec(sig: SigView) -> Seq<char> {
    ret_keyword(sig.ret) + " "@ + sig.name + "("@ + params_text(sig.params) + ");"@
}

/// Renders the prototype line of one signature.
pub fn render(sig: &FunctionSignature) -> (r: String)
    ensures
        r@ == render_spec(sig@),
{
    let mut out: String = match &sig.ret {
        Some(t) => map_type(t.as_str()),
        None => String::from_str("void"),
    };
    out.append(" ");
    out.append(sig.name.as_str());
    out.append("(");
    proof {
        assert(sig@.params.take(0) =~= Seq::<ParamView>::empty());
        assert(out@ =~= ret_keyword(sig@.ret) + " "@ + sig@.name + "("@ + params_text(
            sig@.params.take(0),
        ));
    }
    let n: usize = sig.params.len();
    for i in 0..n
        invariant
            n == sig.params@.len(),
            out@ == ret_keyword(sig@.ret) + " "@ + sig@.name + "("@ + params_text(
                sig@.params.take(i as int),
            ),
    {
        if i > 0 {
            out.append(", ");
        }
        match &sig.params[i].ty {
            Some(t) => {
                let kw = map_type(t.as_str());
                out.append(kw.as_str());
                out.append(" ");
                out.append(sig.params[i].name.as_str());
            },
            None => {},
        }
        proof {
            let ps = sig@.params;
            assert(ps.take(i as int + 1).drop_last() =~= ps.take(i as int));
            assert(ps.take(i as int + 1).last() == ps[i as int]);
            assert(out@ =~= ret_keyword(sig@.ret) + " "@ + sig@.name + "("@ + params_text(
                ps.take(i as int + 1),
            ));
        }
    }
    proof {
        assert(sig@.params.take(n as int) =~= sig@.params);
    }
    out.append(");");
    proof {
        assert(out@ =~= render_spec(sig@));
    }
    out
}

/// Arity rendering: a prototype without parameters closes its parentheses
/// immediately — `<ret> <name>();` — with no separator between them.
pub proof fn lemma_zero_param_form(sig: SigView)
    requires
        sig.params.len() == 0,
    ensures
        render_spec(sig) == ret_keyword(sig.ret) + " "@ + sig.name + "();"@,
{
    reveal_strlit("(");
    reveal_strlit(");");
    reveal_strlit("();");
    assert(render_spec(sig) =~= ret_keyword(sig.ret) + " "@ + sig.name + "();"@);
}

/// Every rendered line is nonempty and ends with the `;` that closes the
/// prototype.
pub proof fn lemma_render_line_shape(sig: SigView)
    ensures
        render_spec(sig).len() >= 1,
        render_spec(sig).last() == ';',
{
    reveal_strlit(");");
    assert(render_spec(sig).last() == ");"@[1]);
}

} // verus!

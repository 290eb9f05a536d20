//! Data model of a scanned namespace: function signatures, their parameters,
//! and the surrounding items that only pass through the engine.

use vstd::prelude::*;

verus! {

/// Mathematical model of one declared parameter: its name and, where the
/// source gave one, the name of its declared type. A receiver-style parameter
/// carries no type and later contributes an empty token to the rendered line.
#[verifier::ext_equal]
pub struct ParamView {
    pub name: Seq<char>,
    pub ty: Option<Seq<char>>,
}

/// Mathematical model of one function signature: name, optional
/// calling-convention marker, ordered parameters, optional return type name.
#[verifier::ext_equal]
pub struct SigView {
    pub name: Seq<char>,
    pub abi: Option<Seq<char>>,
    pub params: Seq<ParamView>,
    pub ret: Option<Seq<char>>,
}

/// Mathematical model of one top-level item of the scanned namespace.
/// Anything that is not a function is opaque to the engine and only passes
/// through.
pub enum ItemView {
    Function(SigView),
    Other,
}

/// One declared parameter, as handed to the engine by the host adapter.
/// `ty` is `None` for a receiver-style parameter without a type annotation.
pub struct Param {
    pub name: String,
    pub ty: Option<String>,
}

impl View for Param {
    type V = ParamView;

    open spec fn view(&self) -> ParamView {
        ParamView { name: self.name@, ty: self.ty.deep_view() }
    }
}

impl DeepView for Param {
    type V = ParamView;

    open spec fn deep_view(&self) -> ParamView {
        self.view()
    }
}

/// One function signature of the scanned namespace. `abi` holds the declared
/// calling-convention marker, if any; `ret` the declared return type name, if
/// any.
pub struct FunctionSignature {
    pub name: String,
    pub abi: Option<String>,
    pub params: Vec<Param>,
    pub ret: Option<String>,
}

impl View for FunctionSignature {
    type V = SigView;

    open spec fn view(&self) -> SigView {
        SigView {
            name: self.name@,
            abi: self.abi.deep_view(),
            params: self.params.deep_view(),
            ret: self.ret.deep_view(),
        }
    }
}

impl DeepView for FunctionSignature {
    type V = SigView;

    open spec fn deep_view(&self) -> SigView {
        self.view()
    }
}

/// One top-level item of the scanned namespace.
pub enum ModuleItem {
    Function(FunctionSignature),
    Other,
}

impl View for ModuleItem {
    type V = ItemView;

    open spec fn view(&self) -> ItemView {
        match self {
            ModuleItem::Function(sig) => ItemView::Function(sig@),
            ModuleItem::Other => ItemView::Other,
        }
    }
}

impl DeepView for ModuleItem {
    type V = ItemView;

    open spec fn deep_view(&self) -> ItemView {
        self.view()
    }
}

/// A signature is foreign-callable exactly when it declares the C
/// calling-convention marker.
pub open spec fn is_foreign(sig: SigView) -> bool {
    match sig.abi {
        Some(a) => a == "C"@,
        None => false,
    }
}

/// Pushing an element onto a vector appends the element's model to the
/// vector's model.
pub proof fn lemma_push_deep_view<T: DeepView>(prev: Vec<T>, cur: Vec<T>, x: T)
    requires
        cur@ == prev@.push(x),
    ensures
        cur.deep_view() == prev.deep_view().push(x.deep_view()),
{
    assert forall|j: int| 0 <= j < cur.deep_view().len() implies cur.deep_view()[j]
        == prev.deep_view().push(x.deep_view())[j] by {
        if j < prev@.len() {
            assert(cur@[j] == prev@[j]);
        } else {
            assert(cur@[j] == x);
        }
    };
    assert(cur.deep_view() =~= prev.deep_view().push(x.deep_view()));
}

impl Param {
    /// A field-by-field copy with the same model.
    pub fn duplicate(&self) -> (r: Param)
        ensures
            r@ == self@,
    {
        let ty: Option<String> = match &self.ty {
            Some(t) => Some(t.clone()),
            None => None,
        };
        let r = Param { name: self.name.clone(), ty };
        proof {
            assert(r@ =~= self@);
        }
        r
    }
}

impl FunctionSignature {
    /// Whether this signature carries the C calling-convention marker.
    pub fn is_c_abi(&self) -> (r: bool)
        ensures
            r == is_foreign(self@),
    {
        match &self.abi {
            Some(a) => *a == String::from_str("C"),
            None => false,
        }
    }

    /// A field-by-field copy with the same model.
    pub fn duplicate(&self) -> (r: FunctionSignature)
        ensures
            r@ == self@,
    {
        let mut params: Vec<Param> = Vec::new();
        let n: usize = self.params.len();
        proof {
            assert(params.deep_view() =~= self.params.deep_view().take(0));
        }
        for i in 0..n
            invariant
                n == self.params@.len(),
                params.deep_view() == self.params.deep_view().take(i as int),
        {
            let ghost prev = params;
            let p = self.params[i].duplicate();
            params.push(p);
            proof {
                lemma_push_deep_view(prev, params, p);
                assert(p.deep_view() == self.params.deep_view()[i as int]);
                assert(self.params.deep_view().take(i as int + 1) =~= self.params.deep_view().take(
                    i as int,
                ).push(self.params.deep_view()[i as int]));
            }
        }
        let abi: Option<String> = match &self.abi {
            Some(a) => Some(a.clone()),
            None => None,
        };
        let ret: Option<String> = match &self.ret {
            Some(t) => Some(t.clone()),
            None => None,
        };
        proof {
            assert(self.params.deep_view().take(n as int) =~= self.params.deep_view());
        }
        let r = FunctionSignature { name: self.name.clone(), abi, params, ret };
        proof {
            assert(r@ =~= self@);
        }
        r
    }
}

} // verus!

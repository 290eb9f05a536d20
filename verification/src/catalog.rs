//! Signature Scanner and Catalog Assembler: filters the foreign-callable
//! signatures of a namespace, joins their rendered prototype lines into the
//! NUL-terminated catalog, and names the accessor symbol that exposes it.

use vstd::prelude::*;

use crate::render::lemma_render_line_shape;
use crate::render::render;
use crate::render::render_spec;
use crate::sig::is_foreign;
use crate::sig::lemma_push_deep_view;
use crate::sig::FunctionSignature;
use crate::sig::ItemView;
use crate::sig::ModuleItem;
use crate::sig::SigView;

verus! {

/// The foreign-callable signatures among a namespace's items, in declaration
/// order. Functions without the marker and non-function items contribute
/// nothing.
pub open spec fn foreign_sigs(items: Seq<ItemView>) -> Seq<SigView>
    decreases items.len(),
{
    if items.len() == 0 {
        Seq::<SigView>::empty()
    } else {
        foreign_sigs(items.drop_last()) + (match items.last() {
            ItemView::Function(sig) => if is_foreign(sig) {
                seq![sig]
            } else {
                Seq::<SigView>::empty()
            },
            ItemView::Other => Seq::<SigView>::empty(),
        })
    }
}

/// Splits a namespace: the foreign-callable signatures in declaration order,
/// and every original item unchanged, in order, for re-emission. Only the
/// top-level items handed in are examined; declarations nested inside them
/// are invisible to the engine.
pub fn scan(items: Vec<ModuleItem>) -> (r: (Vec<FunctionSignature>, Vec<ModuleItem>))
    ensures
        r.0.deep_view() == foreign_sigs(items.deep_view()),
        r.1 == items,
{
    let mut foreign: Vec<FunctionSignature> = Vec::new();
    let n: usize = items.len();
    proof {
        assert(items.deep_view().take(0) =~= Seq::<ItemView>::empty());
        assert(foreign.deep_view() =~= foreign_sigs(items.deep_view().take(0)));
    }
    for i in 0..n
        invariant
            n == items@.len(),
            foreign.deep_view() == foreign_sigs(items.deep_view().take(i as int)),
    {
        let ghost prev = foreign;
        match &items[i] {
            ModuleItem::Function(sig) => {
                if sig.is_c_abi() {
                    let copy = sig.duplicate();
                    foreign.push(copy);
                    proof {
                        lemma_push_deep_view(prev, foreign, copy);
                    }
                }
            },
            ModuleItem::Other => {},
        }
        proof {
            let iv = items.deep_view();
            assert(iv[i as int] == items@[i as int].deep_view());
            assert(iv.take(i as int + 1).drop_last() =~= iv.take(i as int));
            assert(iv.take(i as int + 1).last() == iv[i as int]);
            assert(foreign.deep_view() =~= foreign_sigs(iv.take(i as int + 1)));
        }
    }
    proof {
        assert(items.deep_view().take(n as int) =~= items.deep_view());
    }
    (foreign, items)
}

/// Prototype lines joined by a single newline separator, in the given order,
/// with no leading or trailing separator.
pub open spec fn join_lines(lines: Seq<Seq<char>>) -> Seq<char>
    decreases lines.len(),
{
    if lines.len() == 0 {
        Seq::<char>::empty()
    } else if lines.len() == 1 {
        lines[0]
    } else {
        join_lines(lines.drop_last()) + "\n"@ + lines.last()
    }
}

/// The assembled catalog text: the joined lines followed by exactly one NUL
/// terminator.
pub open spec fn assemble_spec(lines: Seq<Seq<char>>) -> Seq<char> {
    join_lines(lines) + "\0"@
}

/// Joins the given lines into the catalog text.
pub fn assemble(lines: &Vec<String>) -> (r: String)
    ensures
        r@ == assemble_spec(lines.deep_view()),
{
    let mut out = String::new();
    let n: usize = lines.len();
    proof {
        assert(lines.deep_view().take(0) =~= Seq::<Seq<char>>::empty());
        assert(out@ =~= join_lines(lines.deep_view().take(0)));
    }
    for i in 0..n
        invariant
            n == lines@.len(),
            out@ == join_lines(lines.deep_view().take(i as int)),
    {
        if i > 0 {
            out.append("\n");
        }
        out.append(lines[i].as_str());
        proof {
            let lv = lines.deep_view();
            assert(lv[i as int] == lines@[i as int]@);
            assert(lv.take(i as int + 1).drop_last() =~= lv.take(i as int));
            assert(lv.take(i as int + 1).last() == lv[i as int]);
            assert(out@ =~= join_lines(lv.take(i as int + 1)));
        }
    }
    proof {
        assert(lines.deep_view().take(n as int) =~= lines.deep_view());
    }
    out.append("\0");
    out
}

/// The rendered prototype line of each signature, in order.
pub open spec fn rendered_lines(sigs: Seq<SigView>) -> Seq<Seq<char>> {
    sigs.map_values(|sig: SigView| render_spec(sig))
}

/// The catalog of a sequence of foreign-callable signatures: one prototype
/// line each, in order, newline-separated, NUL-terminated.
pub open spec fn catalog_spec(sigs: Seq<SigView>) -> Seq<char> {
    assemble_spec(rendered_lines(sigs))
}

/// Renders every scanned signature and assembles the catalog.
pub fn build_catalog(sigs: &Vec<FunctionSignature>) -> (r: String)
    ensures
        r@ == catalog_spec(sigs.deep_view()),
{
    let mut lines: Vec<String> = Vec::new();
    let n: usize = sigs.len();
    proof {
        assert(lines.deep_view() =~= rendered_lines(sigs.deep_view().take(0)));
    }
    for i in 0..n
        invariant
            n == sigs@.len(),
            lines.deep_view() == rendered_lines(sigs.deep_view().take(i as int)),
    {
        let ghost prev = lines;
        let line = render(&sigs[i]);
        lines.push(line);
        proof {
            lemma_push_deep_view(prev, lines, line);
            assert(sigs.deep_view()[i as int] == sigs@[i as int]@);
            assert(lines.deep_view() =~= rendered_lines(sigs.deep_view().take(i as int + 1)));
        }
    }
    proof {
        assert(sigs.deep_view().take(n as int) =~= sigs.deep_view());
    }
    assemble(&lines)
}

/// The deterministic accessor symbol of a namespace: the namespace's own
/// name followed by the fixed catalog suffix.
pub open spec fn accessor_symbol_spec(module_name: Seq<char>) -> Seq<char> {
    module_name + "_luajit_ffi_decls"@
}

/// Names the accessor symbol for a namespace.
pub fn accessor_symbol(module_name: &str) -> (r: String)
    ensures
        r@ == accessor_symbol_spec(module_name@),
{
    let mut s: String = module_name.to_owned();
    s.append("_luajit_ffi_decls");
    s
}

/// Everything the host adapter re-emits for one namespace: the original
/// items unchanged, the accessor symbol name, and the NUL-terminated catalog
/// text that the accessor exposes.
pub struct Expansion {
    pub passthrough: Vec<ModuleItem>,
    pub accessor_name: String,
    pub catalog: String,
}

/// The whole pipeline for one namespace: scan the items, render each
/// foreign-callable signature, assemble the catalog, and name the accessor.
/// Every input item passes through unchanged, in its original position.
pub fn luajit_module(module_name: &str, items: Vec<ModuleItem>) -> (r: Expansion)
    ensures
        r.passthrough == items,
        r.accessor_name@ == accessor_symbol_spec(module_name@),
        r.catalog@ == catalog_spec(foreign_sigs(items.deep_view())),
{
    let (sigs, passthrough) = scan(items);
    let catalog = build_catalog(&sigs);
    let accessor_name = accessor_symbol(module_name);
    Expansion { passthrough, accessor_name, catalog }
}

/// Signature coverage: the catalog holds exactly one rendered line per
/// foreign-callable signature, in declaration order; only signatures with
/// the marker reach it, and every marked function of the input is present.
pub proof fn lemma_signature_coverage(items: Seq<ItemView>)
    ensures
        rendered_lines(foreign_sigs(items)).len() == foreign_sigs(items).len(),
        forall|k: int|
            0 <= k < foreign_sigs(items).len() ==> rendered_lines(foreign_sigs(items))[k]
                == render_spec(#[trigger] foreign_sigs(items)[k]),
        forall|k: int|
            0 <= k < foreign_sigs(items).len() ==> is_foreign(#[trigger] foreign_sigs(items)[k]),
        forall|j: int|
            0 <= j < items.len() ==> (match #[trigger] items[j] {
                ItemView::Function(sig) => is_foreign(sig) ==> foreign_sigs(items).contains(sig),
                ItemView::Other => true,
            }),
    decreases items.len(),
{
    if items.len() > 0 {
        let prefix = items.drop_last();
        lemma_signature_coverage(prefix);
        let prev = foreign_sigs(prefix);
        let whole = foreign_sigs(items);
        match items.last() {
            ItemView::Function(sig) => {
                if is_foreign(sig) {
                    assert(whole == prev + seq![sig]);
                } else {
                    assert(whole =~= prev);
                }
            },
            ItemView::Other => {
                assert(whole =~= prev);
            },
        }
        assert forall|k: int| 0 <= k < whole.len() implies is_foreign(whole[k]) by {
            if k < prev.len() {
                assert(whole[k] == prev[k]);
            } else {
                assert(whole[k] == items.last()->Function_0);
            }
        };
        assert forall|j: int| #![trigger items[j]]
            0 <= j < items.len() implies (match items[j] {
                ItemView::Function(sig) => is_foreign(sig) ==> whole.contains(sig),
                ItemView::Other => true,
            }) by {
            if j < items.len() - 1 {
                assert(items[j] == prefix[j]);
                match prefix[j] {
                    ItemView::Function(sig) => {
                        if is_foreign(sig) {
                            let w = choose|i: int| 0 <= i < prev.len() && prev[i] == sig;
                            assert(whole[w] == sig);
                            assert(whole.contains(sig));
                        }
                    },
                    ItemView::Other => {},
                }
            } else {
                match items[j] {
                    ItemView::Function(sig) => {
                        if is_foreign(sig) {
                            assert(whole[prev.len() as int] == sig);
                            assert(whole.contains(sig));
                        }
                    },
                    ItemView::Other => {},
                }
            }
        };
    }
}

/// Determinism: the catalog bytes and the accessor name are functions of the
/// scanned input alone, so two runs of the pipeline on identical input yield
/// identical catalogs and identical accessor names.
pub proof fn lemma_pipeline_deterministic(
    items: Seq<ItemView>,
    module_name: Seq<char>,
    catalog_a: Seq<char>,
    catalog_b: Seq<char>,
    accessor_a: Seq<char>,
    accessor_b: Seq<char>,
)
    requires
        catalog_a == catalog_spec(foreign_sigs(items)),
        catalog_b == catalog_spec(foreign_sigs(items)),
        accessor_a == accessor_symbol_spec(module_name),
        accessor_b == accessor_symbol_spec(module_name),
    ensures
        catalog_a == catalog_b,
        accessor_a == accessor_b,
{
}

/// Termination: the catalog's last character is always the NUL terminator,
/// and the character immediately before it — the end of the last prototype
/// line, when there is one — is never the line separator.
pub proof fn lemma_catalog_terminator(sigs: Seq<SigView>)
    ensures
        catalog_spec(sigs).len() >= 1,
        catalog_spec(sigs).last() == '\0',
        catalog_spec(sigs).len() >= 2 ==> catalog_spec(sigs)[catalog_spec(sigs).len() - 2] != '\n',
{
    reveal_strlit("\0");
    let lines = rendered_lines(sigs);
    let joined = join_lines(lines);
    assert(catalog_spec(sigs) == joined + "\0"@);
    assert("\0"@.len() == 1);
    assert(catalog_spec(sigs).last() == '\0');
    if sigs.len() == 0 {
        assert(lines.len() == 0);
        assert(joined.len() == 0);
    } else {
        assert(lines.len() == sigs.len());
        lemma_render_line_shape(sigs.last());
        assert(lines.last() == render_spec(sigs.last()));
        if lines.len() == 1 {
            assert(joined == lines[0]);
            assert(joined.last() == ';');
        } else {
            assert(joined == join_lines(lines.drop_last()) + "\n"@ + lines.last());
            assert(joined.last() == lines.last().last());
            assert(joined.last() == ';');
        }
        assert(catalog_spec(sigs)[catalog_spec(sigs).len() - 2] == joined.last());
        assert(';' != '\n');
    }
}

} // verus!

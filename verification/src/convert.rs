//! Planning the bare conversion. The object database is migrated by
//! hard-linking every loose object file and every pack file — never copying
//! the bytes, which is safe because objects are content-addressed and
//! immutable — while the small mutable metadata is copied. This module
//! decides, from a plain directory listing, exactly which relative paths
//! are linked, copied or created, and nothing else; executing the plan on
//! disk is the embedding application's part.
use vstd::prelude::*;
use vstd::string::StringExecFns;
use crate::service::views_of;
use crate::text::{contains_seq, str_contains, str_eq};

verus! {

/// One entry of a directory listing: a path relative to the listing's
/// root, and whether it is a directory.
#[derive(Clone, Debug, PartialEq, Eq)]
pub struct DirEntryInfo {
    pub rel: String,
    pub is_dir: bool,
}

/// The mathematical content of a `DirEntryInfo`.
pub struct DirEntryInfoView {
    pub rel: Seq<char>,
    pub is_dir: bool,
}

impl View for DirEntryInfo {
    type V = DirEntryInfoView;

    open spec fn view(&self) -> DirEntryInfoView {
        DirEntryInfoView { rel: self.rel@, is_dir: self.is_dir }
    }
}

/// The views of a listing.
pub open spec fn entry_views(es: Seq<DirEntryInfo>) -> Seq<DirEntryInfoView> {
    es.map_values(|e: DirEntryInfo| e@)
}

/// One step of the conversion; every path is relative both to the source
/// checkout's metadata directory and to the bare destination root.
#[derive(Clone, Debug, PartialEq, Eq)]
pub enum ConvertAction {
    /// Create the directory.
    MakeDir { rel: String },
    /// Hard-link the file, aliasing its bytes.
    LinkFile { rel: String },
    /// Copy the file.
    CopyFile { rel: String },
    /// Copy the directory tree.
    CopyTree { rel: String },
}

/// The mathematical content of a `ConvertAction`.
pub enum ConvertActionView {
    MakeDir { rel: Seq<char> },
    LinkFile { rel: Seq<char> },
    CopyFile { rel: Seq<char> },
    CopyTree { rel: Seq<char> },
}

impl View for ConvertAction {
    type V = ConvertActionView;

    open spec fn view(&self) -> ConvertActionView {
        match self {
            ConvertAction::MakeDir { rel } => ConvertActionView::MakeDir { rel: rel@ },
            ConvertAction::LinkFile { rel } => ConvertActionView::LinkFile { rel: rel@ },
            ConvertAction::CopyFile { rel } => ConvertActionView::CopyFile { rel: rel@ },
            ConvertAction::CopyTree { rel } => ConvertActionView::CopyTree { rel: rel@ },
        }
    }
}

/// The views of a plan.
pub open spec fn action_views(actions: Seq<ConvertAction>) -> Seq<ConvertActionView> {
    actions.map_values(|a: ConvertAction| a@)
}

/// Appending an action appends its view.
proof fn lemma_action_views_push(actions: Seq<ConvertAction>, a: ConvertAction)
    ensures
        action_views(actions.push(a)) =~= action_views(actions) + seq![a@],
{
}

/// The critical metadata names of a checkout: the small mutable files and
/// trees that are copied (never linked) into the serving copy.
pub open spec fn is_metadata_name(s: Seq<char>) -> bool {
    s == "HEAD"@ || s == "config"@ || s == "description"@ || s == "info"@ || s == "refs"@ || s
        == "packed-refs"@ || s == "hooks"@
}

/// The critical metadata names, in the order they are migrated.
pub fn metadata_names() -> (r: Vec<String>)
    ensures
        views_of(r@) == seq![
            "HEAD"@,
            "config"@,
            "description"@,
            "info"@,
            "refs"@,
            "packed-refs"@,
            "hooks"@,
        ],
        forall|i: int| 0 <= i < r@.len() ==> is_metadata_name(#[trigger] views_of(r@)[i]),
{
    let mut v: Vec<String> = Vec::new();
    v.push(String::from_str("HEAD"));
    v.push(String::from_str("config"));
    v.push(String::from_str("description"));
    v.push(String::from_str("info"));
    v.push(String::from_str("refs"));
    v.push(String::from_str("packed-refs"));
    v.push(String::from_str("hooks"));
    proof {
        assert(views_of(v@) =~= seq![
            "HEAD"@,
            "config"@,
            "description"@,
            "info"@,
            "refs"@,
            "packed-refs"@,
            "hooks"@,
        ]);
    }
    v
}

/// Whether `s` is one of the critical metadata names.
fn is_metadata_name_str(s: &str) -> (r: bool)
    ensures
        r == is_metadata_name(s@),
{
    str_eq(s, "HEAD") || str_eq(s, "config") || str_eq(s, "description") || str_eq(s, "info")
        || str_eq(s, "refs") || str_eq(s, "packed-refs") || str_eq(s, "hooks")
}

/// What one entry of the object-database listing contributes: a directory
/// is created under `objects/`; a file inside a directory — a loose object
/// or a pack file — is hard-linked under its own relative name, exactly
/// once; a file at the top level contributes nothing.
pub open spec fn object_entry_actions(e: DirEntryInfoView) -> Seq<ConvertActionView> {
    if e.is_dir {
        seq![ConvertActionView::MakeDir { rel: "objects/"@ + e.rel }]
    } else if contains_seq(e.rel, "/"@) {
        seq![ConvertActionView::LinkFile { rel: "objects/"@ + e.rel }]
    } else {
        Seq::empty()
    }
}

/// The object-database actions of a listing, in listing order.
pub open spec fn object_actions(es: Seq<DirEntryInfoView>) -> Seq<ConvertActionView>
    decreases es.len(),
{
    if es.len() == 0 {
        Seq::empty()
    } else {
        object_entry_actions(es[0]) + object_actions(es.drop_first())
    }
}

/// What one entry of the metadata listing contributes: a present critical
/// name is copied — as a tree when it is a directory, as a file otherwise —
/// exactly once; any other name contributes nothing.
pub open spec fn metadata_entry_actions(e: DirEntryInfoView) -> Seq<ConvertActionView> {
    if is_metadata_name(e.rel) {
        if e.is_dir {
            seq![ConvertActionView::CopyTree { rel: e.rel }]
        } else {
            seq![ConvertActionView::CopyFile { rel: e.rel }]
        }
    } else {
        Seq::empty()
    }
}

/// The metadata actions of a listing, in listing order.
pub open spec fn metadata_actions(es: Seq<DirEntryInfoView>) -> Seq<ConvertActionView>
    decreases es.len(),
{
    if es.len() == 0 {
        Seq::empty()
    } else {
        metadata_entry_actions(es[0]) + metadata_actions(es.drop_first())
    }
}

/// The whole conversion plan: the `objects` directory itself, then the
/// object-database actions, then the metadata actions — and nothing else.
pub open spec fn conversion_plan(
    objects: Seq<DirEntryInfoView>,
    meta: Seq<DirEntryInfoView>,
) -> Seq<ConvertActionView> {
    seq![ConvertActionView::MakeDir { rel: "objects"@ }] + object_actions(objects)
        + metadata_actions(meta)
}

/// Extending the considered object entries by one appends that entry's
/// contribution.
proof fn lemma_object_actions_take(es: Seq<DirEntryInfoView>, k: int)
    requires
        0 <= k < es.len(),
    ensures
        object_actions(es.take(k + 1)) == object_actions(es.take(k)) + object_entry_actions(
            es[k],
        ),
    decreases k,
{
    if k == 0 {
        assert(es.take(1).drop_first() =~= Seq::<DirEntryInfoView>::empty());
        assert(es.take(1)[0] == es[0]);
        assert(es.take(0) =~= Seq::<DirEntryInfoView>::empty());
        assert(object_actions(Seq::<DirEntryInfoView>::empty())
            == Seq::<ConvertActionView>::empty());
        assert(object_entry_actions(es[0]) + Seq::<ConvertActionView>::empty()
            =~= object_entry_actions(es[0]));
        assert(Seq::<ConvertActionView>::empty() + object_entry_actions(es[0])
            =~= object_entry_actions(es[0]));
    } else {
        lemma_object_actions_take(es.drop_first(), k - 1);
        assert(es.take(k + 1).drop_first() =~= es.drop_first().take(k));
        assert(es.take(k).drop_first() =~= es.drop_first().take(k - 1));
        assert(es.take(k + 1)[0] == es[0]);
        assert(es.take(k)[0] == es[0]);
        assert(es.drop_first()[k - 1] == es[k]);
        assert((object_entry_actions(es[0]) + object_actions(es.drop_first().take(k - 1)))
            + object_entry_actions(es[k]) =~= object_entry_actions(es[0]) + (object_actions(
            es.drop_first().take(k - 1),
        ) + object_entry_actions(es[k])));
    }
}

/// Extending the considered metadata entries by one appends that entry's
/// contribution.
proof fn lemma_metadata_actions_take(es: Seq<DirEntryInfoView>, k: int)
    requires
        0 <= k < es.len(),
    ensures
        metadata_actions(es.take(k + 1)) == metadata_actions(es.take(k)) + metadata_entry_actions(
            es[k],
        ),
    decreases k,
{
    if k == 0 {
        assert(es.take(1).drop_first() =~= Seq::<DirEntryInfoView>::empty());
        assert(es.take(1)[0] == es[0]);
        assert(es.take(0) =~= Seq::<DirEntryInfoView>::empty());
        assert(metadata_actions(Seq::<DirEntryInfoView>::empty())
            == Seq::<ConvertActionView>::empty());
        assert(metadata_entry_actions(es[0]) + Seq::<ConvertActionView>::empty()
            =~= metadata_entry_actions(es[0]));
        assert(Seq::<ConvertActionView>::empty() + metadata_entry_actions(es[0])
            =~= metadata_entry_actions(es[0]));
    } else {
        lemma_metadata_actions_take(es.drop_first(), k - 1);
        assert(es.take(k + 1).drop_first() =~= es.drop_first().take(k));
        assert(es.take(k).drop_first() =~= es.drop_first().take(k - 1));
        assert(es.take(k + 1)[0] == es[0]);
        assert(es.take(k)[0] == es[0]);
        assert(es.drop_first()[k - 1] == es[k]);
        assert((metadata_entry_actions(es[0]) + metadata_actions(es.drop_first().take(k - 1)))
            + metadata_entry_actions(es[k]) =~= metadata_entry_actions(es[0]) + (metadata_actions(
            es.drop_first().take(k - 1),
        ) + metadata_entry_actions(es[k])));
    }
}

/// Plans the bare conversion from the two listings the embedding
/// application read: `objects` lists the object database (each directory
/// before its files), `meta` the checkout's metadata directory. Each
/// listed object file yields exactly one hard link under its own relative
/// name — no object is dropped or duplicated by the plan — each present
/// critical metadata name exactly one copy action, and the plan holds
/// nothing else, in listing order.
pub fn plan_conversion(objects: &Vec<DirEntryInfo>, meta: &Vec<DirEntryInfo>) -> (r: Vec<
    ConvertAction,
>)
    ensures
        action_views(r@) == conversion_plan(entry_views(objects@), entry_views(meta@)),
{
    let ghost ov = entry_views(objects@);
    let ghost mv = entry_views(meta@);
    let mut out: Vec<ConvertAction> = Vec::new();
    out.push(ConvertAction::MakeDir { rel: String::from_str("objects") });
    assert(action_views(out@) =~= seq![ConvertActionView::MakeDir { rel: "objects"@ }]
        + object_actions(ov.take(0)));
    let mut i: usize = 0;
    while i < objects.len()
        invariant
            i <= objects@.len(),
            ov == entry_views(objects@),
            ov.len() == objects@.len(),
            action_views(out@) == seq![ConvertActionView::MakeDir { rel: "objects"@ }]
                + object_actions(ov.take(i as int)),
        decreases objects@.len() - i,
    {
        let ghost pre = out@;
        let e = &objects[i];
        if e.is_dir {
            let mut rel = String::from_str("objects/");
            rel.append(e.rel.as_str());
            out.push(ConvertAction::MakeDir { rel });
            proof {
                lemma_action_views_push(pre, out@[out@.len() - 1]);
            }
        } else if str_contains(e.rel.as_str(), "/") {
            let mut rel = String::from_str("objects/");
            rel.append(e.rel.as_str());
            out.push(ConvertAction::LinkFile { rel });
            proof {
                lemma_action_views_push(pre, out@[out@.len() - 1]);
            }
        }
        proof {
            assert(ov[i as int] == objects@[i as int]@);
            lemma_object_actions_take(ov, i as int);
            assert(action_views(out@) =~= seq![ConvertActionView::MakeDir { rel: "objects"@ }]
                + object_actions(ov.take(i + 1)));
        }
        i = i + 1;
    }
    proof {
        assert(ov.take(objects@.len() as int) =~= ov);
    }
    let ghost object_part = action_views(out@);
    let mut j: usize = 0;
    while j < meta.len()
        invariant
            j <= meta@.len(),
            mv == entry_views(meta@),
            mv.len() == meta@.len(),
            object_part == seq![ConvertActionView::MakeDir { rel: "objects"@ }] + object_actions(
                entry_views(objects@),
            ),
            action_views(out@) == object_part + metadata_actions(mv.take(j as int)),
        decreases meta@.len() - j,
    {
        let ghost pre = out@;
        let e = &meta[j];
        if is_metadata_name_str(e.rel.as_str()) {
            if e.is_dir {
                out.push(ConvertAction::CopyTree { rel: e.rel.clone() });
            } else {
                out.push(ConvertAction::CopyFile { rel: e.rel.clone() });
            }
            proof {
                lemma_action_views_push(pre, out@[out@.len() - 1]);
            }
        }
        proof {
            assert(mv[j as int] == meta@[j as int]@);
            lemma_metadata_actions_take(mv, j as int);
            assert(action_views(out@) =~= object_part + metadata_actions(mv.take(j + 1)));
        }
        j = j + 1;
    }
    proof {
        assert(mv.take(meta@.len() as int) =~= mv);
        assert(action_views(out@) =~= conversion_plan(entry_views(objects@), entry_views(meta@)));
    }
    out
}

} // verus!

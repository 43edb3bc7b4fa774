//! The refs advertisement answered to protocol discovery: a framed service
//! announcement, a flush, the `HEAD` line carrying the fixed capability
//! string, one framed line per non-tag reference, and a closing flush.
use vstd::prelude::*;
use vstd::string::StrSliceExecFns;
use vstd::string::StringExecFns;
use vstd::utf8::encode_utf8;
use crate::pkt::{format_pkt_prefix, pkt_prefix};

verus! {

/// Character budget per advertised name; far above any real reference name,
/// and small enough that every framed line's byte length fits a `usize`.
pub const MAX_PKT_TEXT: usize = 0x0100_0000;

/// One reference of the repository, as read for the advertisement: its full
/// name, the object id it resolves to (absent for unresolved symbolic
/// references), and whether it lives under the tags namespace.
#[derive(Clone, Debug)]
pub struct RefEntry {
    pub name: String,
    pub oid: Option<String>,
    pub is_tag: bool,
}

/// The mathematical content of a `RefEntry`.
pub struct RefEntryView {
    pub name: Seq<char>,
    pub oid: Option<Seq<char>>,
    pub is_tag: bool,
}

impl View for RefEntry {
    type V = RefEntryView;

    open spec fn view(&self) -> RefEntryView {
        RefEntryView {
            name: self.name@,
            oid: match self.oid {
                Option::Some(o) => Option::Some(o@),
                Option::None => Option::None,
            },
            is_tag: self.is_tag,
        }
    }
}

/// The views of a sequence of entries.
pub open spec fn entries_view(es: Seq<RefEntry>) -> Seq<RefEntryView> {
    es.map_values(|e: RefEntry| e@)
}

/// The flush marker that closes each section; never a data line.
pub open spec fn flush_marker() -> Seq<char> {
    "0000"@
}

/// The service announcement line.
pub open spec fn service_header() -> Seq<char> {
    "# service=git-upload-pack\n"@
}

/// What follows the object id on the `HEAD` line: the fixed capability
/// string advertising the supported negotiation features.
pub open spec fn head_suffix() -> Seq<char> {
    " HEAD\u{0}multi_ack multi_ack_detailed thin-pack side-band side-band-64k ofs-delta shallow deepen-since deepen-not deepen-relative no-progress include-tag ofs-delta agent=git/2.40.0\n"@
}

/// A line framed as a pkt-line: a four-digit lowercase hex prefix giving the
/// byte length of prefix plus payload, then the payload itself.
pub open spec fn pkt_frame(line: Seq<char>) -> Seq<char> {
    pkt_prefix((encode_utf8(line).len() + 4) as nat) + line
}

/// The `HEAD` line: object id, then the capability string.
pub open spec fn head_line(oid: Seq<char>) -> Seq<char> {
    oid + head_suffix()
}

/// An ordinary reference line: `<object-id> <ref-name>\n`.
pub open spec fn entry_line(oid: Seq<char>, name: Seq<char>) -> Seq<char> {
    oid + " "@ + name + "\n"@
}

/// What one reference contributes to the advertisement: its framed line if
/// it is a resolved non-tag reference, nothing otherwise.
pub open spec fn entry_contribution(e: RefEntryView) -> Seq<char> {
    match e.oid {
        Option::Some(o) => if e.is_tag {
            Seq::empty()
        } else {
            pkt_frame(entry_line(o, e.name))
        },
        Option::None => Seq::empty(),
    }
}

/// The framed lines of all advertised references, in order.
pub open spec fn ref_entry_lines(es: Seq<RefEntryView>) -> Seq<char>
    decreases es.len(),
{
    if es.len() == 0 {
        Seq::empty()
    } else {
        entry_contribution(es[0]) + ref_entry_lines(es.drop_first())
    }
}

/// The whole advertisement for a repository whose `HEAD` resolves to
/// `head_oid` and whose references are `es`.
pub open spec fn advertisement(head_oid: Seq<char>, es: Seq<RefEntryView>) -> Seq<char> {
    pkt_frame(service_header()) + flush_marker() + pkt_frame(head_line(head_oid))
        + ref_entry_lines(es) + flush_marker()
}

/// UTF-8 encoding takes between one and four bytes per character.
pub proof fn lemma_encode_utf8_len(s: Seq<char>)
    ensures
        s.len() <= encode_utf8(s).len() <= 4 * s.len(),
    decreases s.len(),
{
    if s.len() != 0 {
        lemma_encode_utf8_len(s.drop_first());
    }
}

/// The fixed capability suffix of the `HEAD` line.
fn head_suffix_str() -> (r: &'static str)
    ensures
        r@ == head_suffix(),
        r@.len() < 200,
{
    let r =
        " HEAD\u{0}multi_ack multi_ack_detailed thin-pack side-band side-band-64k ofs-delta shallow deepen-since deepen-not deepen-relative no-progress include-tag ofs-delta agent=git/2.40.0\n";
    proof {
        reveal_strlit(
            " HEAD\u{0}multi_ack multi_ack_detailed thin-pack side-band side-band-64k ofs-delta shallow deepen-since deepen-not deepen-relative no-progress include-tag ofs-delta agent=git/2.40.0\n",
        );
    }
    r
}

/// Appends the pkt-line framing of `line` to `out`.
fn append_framed(out: &mut String, line: &str)
    requires
        encode_utf8(line@).len() + 4 <= 0x4000_0000,
    ensures
        final(out)@ == old(out)@ + pkt_frame(line@),
{
    let n = line.len();
    let p = format_pkt_prefix(n + 4);
    out.append(p.as_str());
    out.append(line);
}

/// Builds the refs advertisement byte stream.
pub fn build_refs_advertisement(head_oid: &str, entries: &Vec<RefEntry>) -> (r: Vec<u8>)
    requires
        head_oid@.len() <= MAX_PKT_TEXT,
        forall|i: int|
            0 <= i < entries@.len() ==> (#[trigger] entries@[i])@.name.len() <= MAX_PKT_TEXT
                && (match entries@[i]@.oid {
                Option::Some(o) => o.len() <= MAX_PKT_TEXT,
                Option::None => true,
            }),
    ensures
        r@ == encode_utf8(advertisement(head_oid@, entries_view(entries@))),
{
    let mut out = String::new();
    proof {
        reveal_strlit("# service=git-upload-pack\n");
        lemma_encode_utf8_len(service_header());
    }
    append_framed(&mut out, "# service=git-upload-pack\n");
    out.append("0000");
    let mut head = String::from_str(head_oid);
    head.append(head_suffix_str());
    proof {
        lemma_encode_utf8_len(head@);
    }
    append_framed(&mut out, head.as_str());
    let ghost prefix: Seq<char> = pkt_frame(service_header()) + flush_marker() + pkt_frame(
        head_line(head_oid@),
    );
    assert(out@ =~= prefix + ref_entry_lines(entries_view(entries@).take(0)));
    let mut k: usize = 0;
    while k < entries.len()
        invariant
            forall|i: int|
                0 <= i < entries@.len() ==> (#[trigger] entries@[i])@.name.len() <= MAX_PKT_TEXT
                    && (match entries@[i]@.oid {
                    Option::Some(o) => o.len() <= MAX_PKT_TEXT,
                    Option::None => true,
                }),
            k <= entries@.len(),
            prefix == pkt_frame(service_header()) + flush_marker() + pkt_frame(
                head_line(head_oid@),
            ),
            out@ == prefix + ref_entry_lines(entries_view(entries@).take(k as int)),
        decreases entries@.len() - k,
    {
        let e = &entries[k];
        if !e.is_tag {
            match &e.oid {
                Option::Some(o) => {
                    let mut line = String::from_str(o.as_str());
                    line.append(" ");
                    line.append(e.name.as_str());
                    line.append("\n");
                    proof {
                        reveal_strlit(" ");
                        reveal_strlit("\n");
                        lemma_encode_utf8_len(line@);
                        assert(line@ == entry_line(
                            entries@[k as int]@.oid.unwrap(),
                            entries@[k as int]@.name,
                        ));
                    }
                    append_framed(&mut out, line.as_str());
                },
                Option::None => {},
            }
        }
        proof {
            lemma_ref_entry_lines_take(entries_view(entries@), k as int);
            assert(entries_view(entries@)[k as int] == entries@[k as int]@);
            assert(out@ =~= prefix + ref_entry_lines(entries_view(entries@).take(k + 1)));
        }
        k = k + 1;
    }
    proof {
        assert(entries_view(entries@).take(entries@.len() as int) =~= entries_view(entries@));
    }
    out.append("0000");
    let r = out.as_str().as_bytes_vec();
    proof {
        assert(out@ =~= advertisement(head_oid@, entries_view(entries@)));
    }
    r
}

/// Extending the advertised prefix by one entry appends that entry's
/// contribution.
proof fn lemma_ref_entry_lines_take(es: Seq<RefEntryView>, k: int)
    requires
        0 <= k < es.len(),
    ensures
        ref_entry_lines(es.take(k + 1)) == ref_entry_lines(es.take(k)) + entry_contribution(es[k]),
    decreases k,
{
    if k == 0 {
        assert(es.take(1).drop_first() =~= Seq::<RefEntryView>::empty());
        assert(es.take(1)[0] == es[0]);
        assert(ref_entry_lines(es.take(1)) == entry_contribution(es[0]) + ref_entry_lines(
            Seq::<RefEntryView>::empty(),
        ));
        assert(ref_entry_lines(es.take(0)) =~= Seq::<char>::empty());
        assert(entry_contribution(es[0]) + Seq::<char>::empty() =~= entry_contribution(es[0]));
        assert(Seq::<char>::empty() + entry_contribution(es[0]) =~= entry_contribution(es[0]));
    } else {
        lemma_ref_entry_lines_take(es.drop_first(), k - 1);
        assert(es.take(k + 1).drop_first() =~= es.drop_first().take(k));
        assert(es.take(k).drop_first() =~= es.drop_first().take(k - 1));
        assert(es.take(k + 1)[0] == es[0]);
        assert(es.take(k)[0] == es[0]);
        assert(es.drop_first()[k - 1] == es[k]);
        assert(ref_entry_lines(es.take(k + 1)) == entry_contribution(es[0]) + ref_entry_lines(
            es.drop_first().take(k),
        ));
        assert(ref_entry_lines(es.take(k)) == entry_contribution(es[0]) + ref_entry_lines(
            es.drop_first().take(k - 1),
        ));
        assert((entry_contribution(es[0]) + ref_entry_lines(es.drop_first().take(k - 1)))
            + entry_contribution(es[k]) =~= entry_contribution(es[0]) + (ref_entry_lines(
            es.drop_first().take(k - 1),
        ) + entry_contribution(es[k])));
    }
}

/// Tag references never appear in the advertisement: removing a tag entry
/// leaves the advertised lines unchanged.
pub proof fn lemma_tags_never_advertised(es: Seq<RefEntryView>, i: int)
    requires
        0 <= i < es.len(),
        es[i].is_tag,
    ensures
        ref_entry_lines(es) == ref_entry_lines(es.remove(i)),
    decreases i,
{
    if i == 0 {
        assert(es.remove(0) =~= es.drop_first());
        assert(entry_contribution(es[0]) =~= Seq::<char>::empty());
        assert(Seq::<char>::empty() + ref_entry_lines(es.drop_first()) =~= ref_entry_lines(
            es.drop_first(),
        ));
    } else {
        lemma_tags_never_advertised(es.drop_first(), i - 1);
        assert(es.remove(i).drop_first() =~= es.drop_first().remove(i - 1));
        assert(es.remove(i)[0] == es[0]);
        assert(ref_entry_lines(es.remove(i)) == entry_contribution(es[0]) + ref_entry_lines(
            es.remove(i).drop_first(),
        ));
    }
}

/// The advertisement always opens with the service announcement, a flush,
/// and then the `HEAD` line — the head object id followed by the fixed
/// capability string — before any other reference line.
pub proof fn lemma_advertisement_head_first(head_oid: Seq<char>, es: Seq<RefEntryView>)
    ensures
        advertisement(head_oid, es) == pkt_frame(service_header()) + flush_marker() + pkt_frame(
            head_oid + head_suffix(),
        ) + ref_entry_lines(es) + flush_marker(),
{
}

/// The references that get advertised: the resolved non-tag ones, in order.
pub open spec fn advertised(es: Seq<RefEntryView>) -> Seq<RefEntryView>
    decreases es.len(),
{
    if es.len() == 0 {
        Seq::empty()
    } else {
        let rest = advertised(es.drop_first());
        if !es[0].is_tag && es[0].oid is Some {
            seq![es[0]] + rest
        } else {
            rest
        }
    }
}

/// One framed entry line per reference, in order.
pub open spec fn frames_of(es: Seq<RefEntryView>) -> Seq<char>
    decreases es.len(),
{
    if es.len() == 0 {
        Seq::empty()
    } else {
        pkt_frame(entry_line(es[0].oid.unwrap(), es[0].name)) + frames_of(es.drop_first())
    }
}

/// The reference section of the advertisement is exactly one framed entry
/// line per resolved non-tag reference, in order, and nothing else.
pub proof fn lemma_only_resolved_non_tags_advertised(es: Seq<RefEntryView>)
    ensures
        ref_entry_lines(es) == frames_of(advertised(es)),
    decreases es.len(),
{
    if es.len() != 0 {
        lemma_only_resolved_non_tags_advertised(es.drop_first());
        if !es[0].is_tag && es[0].oid is Some {
            let tail = advertised(es.drop_first());
            assert((seq![es[0]] + tail).drop_first() =~= tail);
            assert((seq![es[0]] + tail)[0] == es[0]);
            assert(frames_of(seq![es[0]] + tail) == pkt_frame(
                entry_line(es[0].oid.unwrap(), es[0].name),
            ) + frames_of(tail));
            assert(entry_contribution(es[0]) == pkt_frame(
                entry_line(es[0].oid.unwrap(), es[0].name),
            ));
        } else {
            assert(entry_contribution(es[0]) == Seq::<char>::empty());
            assert(Seq::<char>::empty() + ref_entry_lines(es.drop_first()) =~= ref_entry_lines(
                es.drop_first(),
            ));
        }
    }
}

} // verus!

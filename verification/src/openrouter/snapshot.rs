//! How an OpenRouter snapshot is kept in the cache: as a JSON document with one entry,
//! `snapshot`, under which each field has an entry of its own.

use vstd::prelude::*;
use crate::amount::Amount;
use crate::double::{is_short_decimal, one, Double};
use crate::error::{AppError, AppErrorView};
use crate::json::{
    double_reread, flag, get, index, json_parsed, json_text, json_tree,
    law_number_stands_for_one_double, null, parse, read_again, set_entry, stands_for, text,
    write_document, JsonNumber, JsonTree,
};
use crate::nearest::{
    is_nearest_double, law_one_double_is_nearest, law_small_integers_are_exact, nearest_double,
};
use crate::usage::{amount_view, OpenRouterSnapshot, OpenRouterSnapshotView};

verus! {

/// An amount as it is kept.
pub open spec fn amount_tree(d: Double) -> JsonTree {
    JsonTree::Number(JsonNumber::Float(d.bits))
}

/// An amount that may be missing, as it is kept.
pub open spec fn optional_tree(d: Option<Double>) -> JsonTree {
    match d {
        Some(d) => amount_tree(d),
        None => JsonTree::Null,
    }
}

/// A snapshot as it is kept.
pub open spec fn snapshot_tree(s: OpenRouterSnapshotView) -> JsonTree {
    JsonTree::Object(
        Map::empty().insert("label"@, JsonTree::Text(s.label)).insert(
            "total_credits"@,
            amount_tree(s.total_credits),
        ).insert("total_usage"@, amount_tree(s.total_usage)).insert(
            "usage_daily"@,
            amount_tree(s.usage_daily),
        ).insert("usage_weekly"@, amount_tree(s.usage_weekly)).insert(
            "usage_monthly"@,
            amount_tree(s.usage_monthly),
        ).insert("is_free_tier"@, JsonTree::Bool(s.is_free_tier)).insert(
            "limit"@,
            optional_tree(s.limit),
        ).insert("limit_remaining"@, optional_tree(s.limit_remaining)),
    )
}

/// The document that keeps a snapshot.
pub open spec fn document_tree(s: OpenRouterSnapshotView) -> JsonTree {
    JsonTree::Object(Map::empty().insert("snapshot"@, snapshot_tree(s)))
}

/// The amount under a key, and none where there is no number.
pub open spec fn amount_at(t: JsonTree, key: Seq<char>) -> Option<Double> {
    match t.entry(key).as_double() {
        Some(bits) => Some(Double { bits }),
        None => None,
    }
}

/// The amount under a key, and zero where there is no number.
pub open spec fn amount_or_zero(t: JsonTree, key: Seq<char>) -> Double {
    match amount_at(t, key) {
        Some(d) => d,
        None => Double { bits: 0 },
    }
}

/// The snapshot that the entries of an object stand for; what is missing has a default.
pub open spec fn snapshot_in(t: JsonTree) -> OpenRouterSnapshotView {
    OpenRouterSnapshotView {
        label: match t.entry("label"@).as_text() {
            Some(s) => s,
            None => "OpenRouter"@,
        },
        total_credits: amount_or_zero(t, "total_credits"@),
        total_usage: amount_or_zero(t, "total_usage"@),
        usage_daily: amount_or_zero(t, "usage_daily"@),
        usage_weekly: amount_or_zero(t, "usage_weekly"@),
        usage_monthly: amount_or_zero(t, "usage_monthly"@),
        is_free_tier: match t.entry("is_free_tier"@).as_flag() {
            Some(b) => b,
            None => false,
        },
        limit: amount_at(t, "limit"@),
        limit_remaining: amount_at(t, "limit_remaining"@),
    }
}

/// The snapshot that a document keeps.
pub open spec fn kept_in(t: JsonTree) -> Result<OpenRouterSnapshotView, AppErrorView> {
    if t.entries().contains_key("snapshot"@) {
        Ok(snapshot_in(t.entry("snapshot"@)))
    } else {
        Err(AppErrorView::Schema("openrouter cache missing 'snapshot' field"@))
    }
}

/// The snapshot that a cached payload keeps.
pub open spec fn cached_snapshot(bytes: Seq<u8>) -> Result<OpenRouterSnapshotView, AppErrorView> {
    match json_parsed(bytes) {
        Ok(t) => kept_in(t),
        Err(e) => Err(AppErrorView::Json(e)),
    }
}

/// A snapshot or an error.
pub open spec fn snapshot_view(r: Result<OpenRouterSnapshot, AppError>) -> Result<
    OpenRouterSnapshotView,
    AppErrorView,
> {
    match r {
        Ok(s) => Ok(s@),
        Err(e) => Err(e@),
    }
}

fn read_amount(v: &serde_json::Value, key: &str) -> (r: Amount)
    ensures
        r@ == amount_or_zero(json_tree(*v), key@),
{
    match Amount::from_json(index(v, key)) {
        Some(a) => a,
        None => Amount::zero(),
    }
}

/// Reads the snapshot that a document keeps.
pub fn read_document(v: &serde_json::Value) -> (r: Result<OpenRouterSnapshot, AppError>)
    ensures
        snapshot_view(r) == kept_in(json_tree(*v)),
        r is Ok <==> json_tree(*v) is Object && json_tree(*v)->Object_0.contains_key("snapshot"@),
        r matches Ok(s) ==> s@ == snapshot_in(json_tree(*v)->Object_0["snapshot"@]),
        r matches Err(e) ==> (e matches AppError::Schema(text) && text@
            == "openrouter cache missing 'snapshot' field"@),
{
    let s = match get(v, "snapshot") {
        Some(s) => s,
        None => {
            return Err(
                AppError::Schema("openrouter cache missing 'snapshot' field".to_string()),
            );
        },
    };
    let label: String = match index(s, "label").as_str() {
        Some(label) => label.to_string(),
        None => "OpenRouter".to_string(),
    };
    let is_free_tier: bool = match index(s, "is_free_tier").as_bool() {
        Some(b) => b,
        None => false,
    };
    Ok(
        OpenRouterSnapshot {
            label,
            total_credits: read_amount(s, "total_credits"),
            total_usage: read_amount(s, "total_usage"),
            usage_daily: read_amount(s, "usage_daily"),
            usage_weekly: read_amount(s, "usage_weekly"),
            usage_monthly: read_amount(s, "usage_monthly"),
            is_free_tier,
            limit: Amount::from_json(index(s, "limit")),
            limit_remaining: Amount::from_json(index(s, "limit_remaining")),
        },
    )
}

/// Reads the snapshot that a cached payload keeps.
pub fn parse_cache(bytes: &[u8]) -> (r: Result<OpenRouterSnapshot, AppError>)
    ensures
        snapshot_view(r) == cached_snapshot(bytes@),
        json_parsed(bytes@) matches Err(e) ==> (r matches Err(AppError::Json(text)) && text@ == e),
        json_parsed(bytes@) matches Ok(t) ==> (r is Ok <==> t is Object
            && t->Object_0.contains_key("snapshot"@)),
        json_parsed(bytes@) matches Ok(t) ==> r matches Ok(s) ==> s@ == snapshot_in(
            t->Object_0["snapshot"@],
        ),
        json_parsed(bytes@) is Ok && r is Err ==> (r->Err_0 matches AppError::Schema(text) && text@
            == "openrouter cache missing 'snapshot' field"@),
{
    match parse(bytes) {
        Ok(v) => read_document(&v),
        Err(e) => Err(AppError::Json(e)),
    }
}

fn optional_value(a: &Option<Amount>) -> (v: serde_json::Value)
    ensures
        json_tree(v) == optional_tree(amount_view(*a)),
{
    match a {
        Some(a) => a.to_json(),
        None => null(),
    }
}

/// A snapshot as it is kept.
pub fn serde_repr(snap: &OpenRouterSnapshot) -> (v: serde_json::Value)
    ensures
        json_tree(v) == snapshot_tree(snap@),
{
    let mut v = null();
    set_entry(&mut v, "label", text(snap.label.clone()));
    set_entry(&mut v, "total_credits", snap.total_credits.to_json());
    set_entry(&mut v, "total_usage", snap.total_usage.to_json());
    set_entry(&mut v, "usage_daily", snap.usage_daily.to_json());
    set_entry(&mut v, "usage_weekly", snap.usage_weekly.to_json());
    set_entry(&mut v, "usage_monthly", snap.usage_monthly.to_json());
    set_entry(&mut v, "is_free_tier", flag(snap.is_free_tier));
    set_entry(&mut v, "limit", optional_value(&snap.limit));
    set_entry(&mut v, "limit_remaining", optional_value(&snap.limit_remaining));
    v
}

/// The bits of an amount that was written and read again, where it is read at all.
pub open spec fn amount_reread(d: Double) -> Option<u64> {
    read_again(d.bits, double_reread(d.bits))
}

/// An amount as it is read where it was written.
pub open spec fn reread_amount(d: Double) -> Double {
    Double { bits: amount_reread(d).unwrap() }
}

impl OpenRouterSnapshotView {
    /// Every amount is one that is read where it was written.
    pub open spec fn rereads(self) -> bool {
        &&& amount_reread(self.total_credits) is Some
        &&& amount_reread(self.total_usage) is Some
        &&& amount_reread(self.usage_daily) is Some
        &&& amount_reread(self.usage_weekly) is Some
        &&& amount_reread(self.usage_monthly) is Some
        &&& self.limit matches Some(d) ==> amount_reread(d) is Some
        &&& self.limit_remaining matches Some(d) ==> amount_reread(d) is Some
    }

    /// The snapshot with every amount as it is read where it was written.
    pub open spec fn reread(self) -> OpenRouterSnapshotView {
        OpenRouterSnapshotView {
            label: self.label,
            total_credits: reread_amount(self.total_credits),
            total_usage: reread_amount(self.total_usage),
            usage_daily: reread_amount(self.usage_daily),
            usage_weekly: reread_amount(self.usage_weekly),
            usage_monthly: reread_amount(self.usage_monthly),
            is_free_tier: self.is_free_tier,
            limit: match self.limit {
                Some(d) => Some(reread_amount(d)),
                None => None,
            },
            limit_remaining: match self.limit_remaining {
                Some(d) => Some(reread_amount(d)),
                None => None,
            },
        }
    }

    /// Every amount is a short decimal number.
    pub open spec fn has_short_amounts(self) -> bool {
        &&& is_short_decimal(self.total_credits)
        &&& is_short_decimal(self.total_usage)
        &&& is_short_decimal(self.usage_daily)
        &&& is_short_decimal(self.usage_weekly)
        &&& is_short_decimal(self.usage_monthly)
        &&& self.limit matches Some(d) ==> is_short_decimal(d)
        &&& self.limit_remaining matches Some(d) ==> is_short_decimal(d)
    }
}

/// Amounts that are short decimal numbers are read exactly as they were written.
pub proof fn law_short_amounts_are_kept(s: OpenRouterSnapshotView)
    requires
        is_short_decimal(s.total_credits),
        is_short_decimal(s.total_usage),
        is_short_decimal(s.usage_daily),
        is_short_decimal(s.usage_weekly),
        is_short_decimal(s.usage_monthly),
        s.limit matches Some(d) ==> is_short_decimal(d),
        s.limit_remaining matches Some(d) ==> is_short_decimal(d),
    ensures
        s.has_short_amounts(),
        s.rereads(),
        s.reread() == s,
{
}

/// No two fields are kept under the same key: the keys differ in length or in a character.
proof fn lemma_keys_differ()
    ensures
        "label"@.len() == 5,
        "limit"@.len() == 5,
        "total_usage"@.len() == 11,
        "usage_daily"@.len() == 11,
        "usage_weekly"@.len() == 12,
        "is_free_tier"@.len() == 12,
        "total_credits"@.len() == 13,
        "usage_monthly"@.len() == 13,
        "limit_remaining"@.len() == 15,
        "label"@[1] != "limit"@[1],
        "total_usage"@[0] != "usage_daily"@[0],
        "usage_weekly"@[0] != "is_free_tier"@[0],
        "total_credits"@[0] != "usage_monthly"@[0],
{
    reveal_strlit("label");
    reveal_strlit("total_credits");
    reveal_strlit("total_usage");
    reveal_strlit("usage_daily");
    reveal_strlit("usage_weekly");
    reveal_strlit("usage_monthly");
    reveal_strlit("is_free_tier");
    reveal_strlit("limit");
    reveal_strlit("limit_remaining");
}

/// Reading what is kept gives the snapshot back: every field is read from where it was put, and
/// any amount is the one that was kept.
pub proof fn law_kept_snapshot_is_read_back(s: OpenRouterSnapshotView)
    ensures
        kept_in(document_tree(s)) == Ok::<OpenRouterSnapshotView, AppErrorView>(s),
{
    lemma_keys_differ();
}

/// Each field of a snapshot is kept under its own name, and nothing else is kept.
pub proof fn law_fields_are_kept_under_their_names(s: OpenRouterSnapshot)
    ensures
        ({
            let m = snapshot_tree(s@)->Object_0;
            &&& snapshot_tree(s@) is Object
            &&& forall|k: Seq<char>| #[trigger]
                m.contains_key(k) <==> {
                    ||| k == "label"@
                    ||| k == "total_credits"@
                    ||| k == "total_usage"@
                    ||| k == "usage_daily"@
                    ||| k == "usage_weekly"@
                    ||| k == "usage_monthly"@
                    ||| k == "is_free_tier"@
                    ||| k == "limit"@
                    ||| k == "limit_remaining"@
                }
            &&& m["label"@] == JsonTree::Text(s.label@)
            &&& m["total_credits"@] == JsonTree::Number(JsonNumber::Float(s.total_credits@.bits))
            &&& m["total_usage"@] == JsonTree::Number(JsonNumber::Float(s.total_usage@.bits))
            &&& m["usage_daily"@] == JsonTree::Number(JsonNumber::Float(s.usage_daily@.bits))
            &&& m["usage_weekly"@] == JsonTree::Number(JsonNumber::Float(s.usage_weekly@.bits))
            &&& m["usage_monthly"@] == JsonTree::Number(JsonNumber::Float(s.usage_monthly@.bits))
            &&& m["is_free_tier"@] == JsonTree::Bool(s.is_free_tier)
            &&& s.limit is None ==> m["limit"@] is Null
            &&& s.limit matches Some(a) ==> m["limit"@] == JsonTree::Number(
                JsonNumber::Float(a@.bits),
            )
            &&& s.limit_remaining is None ==> m["limit_remaining"@] is Null
            &&& s.limit_remaining matches Some(a) ==> m["limit_remaining"@] == JsonTree::Number(
                JsonNumber::Float(a@.bits),
            )
        }),
{
    lemma_keys_differ();
}

/// Each field is read from the entry under its own name. An amount that is a double is that very
/// double; a label that is no text, a tier that is no Boolean and an amount that is no number have
/// their defaults.
pub proof fn law_fields_are_read_from_their_names(
    m: Map<Seq<char>, JsonTree>,
    s: OpenRouterSnapshot,
)
    requires
        s@ == snapshot_in(JsonTree::Object(m)),
    ensures
        ({
            &&& m.contains_key("label"@) && m["label"@] is Text ==> s.label@ == m["label"@]->Text_0
            &&& !(m.contains_key("label"@) && m["label"@] is Text) ==> s.label@ == "OpenRouter"@
            &&& m.contains_key("is_free_tier"@) && m["is_free_tier"@] is Bool ==> s.is_free_tier
                == m["is_free_tier"@]->Bool_0
            &&& !(m.contains_key("is_free_tier"@) && m["is_free_tier"@] is Bool)
                ==> !s.is_free_tier
            &&& m.contains_key("total_credits"@) && m["total_credits"@] is Number ==> stands_for(
                m["total_credits"@]->Number_0,
                s.total_credits@,
            )
            &&& !(m.contains_key("total_credits"@) && m["total_credits"@] is Number) ==> s.total_credits@.bits == 0
            &&& m.contains_key("total_usage"@) && m["total_usage"@] is Number ==> stands_for(
                m["total_usage"@]->Number_0,
                s.total_usage@,
            )
            &&& !(m.contains_key("total_usage"@) && m["total_usage"@] is Number) ==> s.total_usage@.bits == 0
            &&& m.contains_key("usage_daily"@) && m["usage_daily"@] is Number ==> stands_for(
                m["usage_daily"@]->Number_0,
                s.usage_daily@,
            )
            &&& !(m.contains_key("usage_daily"@) && m["usage_daily"@] is Number) ==> s.usage_daily@.bits == 0
            &&& m.contains_key("usage_weekly"@) && m["usage_weekly"@] is Number ==> stands_for(
                m["usage_weekly"@]->Number_0,
                s.usage_weekly@,
            )
            &&& !(m.contains_key("usage_weekly"@) && m["usage_weekly"@] is Number) ==> s.usage_weekly@.bits == 0
            &&& m.contains_key("usage_monthly"@) && m["usage_monthly"@] is Number ==> stands_for(
                m["usage_monthly"@]->Number_0,
                s.usage_monthly@,
            )
            &&& !(m.contains_key("usage_monthly"@) && m["usage_monthly"@] is Number) ==> s.usage_monthly@.bits == 0
            &&& s.limit is Some <==> m.contains_key("limit"@) && m["limit"@] is Number
            &&& s.limit is Some ==> stands_for(m["limit"@]->Number_0, s.limit->0@)
            &&& s.limit_remaining is Some <==> m.contains_key("limit_remaining"@) && m["limit_remaining"@] is Number
            &&& s.limit_remaining is Some ==> stands_for(m["limit_remaining"@]->Number_0, s.limit_remaining->0@)
        }),
{
    if m["total_credits"@] is Number {
        law_number_stands_for_one_double(m["total_credits"@]->Number_0);
    }
    if m["total_usage"@] is Number {
        law_number_stands_for_one_double(m["total_usage"@]->Number_0);
    }
    if m["usage_daily"@] is Number {
        law_number_stands_for_one_double(m["usage_daily"@]->Number_0);
    }
    if m["usage_weekly"@] is Number {
        law_number_stands_for_one_double(m["usage_weekly"@]->Number_0);
    }
    if m["usage_monthly"@] is Number {
        law_number_stands_for_one_double(m["usage_monthly"@]->Number_0);
    }
    if m["limit"@] is Number {
        law_number_stands_for_one_double(m["limit"@]->Number_0);
    }
    if m["limit_remaining"@] is Number {
        law_number_stands_for_one_double(m["limit_remaining"@]->Number_0);
    }
}

/// What is kept under `snapshot` but is no object has no entries: every field has its default.
pub proof fn law_no_object_has_defaults(t: JsonTree, s: OpenRouterSnapshot)
    requires
        !(t is Object),
        s@ == snapshot_in(t),
    ensures
        s.label@ == "OpenRouter"@,
        s.total_credits@.bits == 0,
        s.total_usage@.bits == 0,
        s.usage_daily@.bits == 0,
        s.usage_weekly@.bits == 0,
        s.usage_monthly@.bits == 0,
        !s.is_free_tier,
        s.limit is None,
        s.limit_remaining is None,
{
}

/// A document keeps a snapshot under `snapshot` and nothing else.
pub proof fn law_document_keeps_one_snapshot(s: OpenRouterSnapshotView, k: Seq<char>)
    ensures
        document_tree(s) is Object,
        document_tree(s)->Object_0.contains_key(k) <==> k == "snapshot"@,
        document_tree(s)->Object_0["snapshot"@] == snapshot_tree(s),
{
}

/// Writing and reading again changes amounts alone, each by itself: a short one stays, and any
/// other is what it is read as.
pub proof fn law_reading_again_changes_amounts_alone(s: OpenRouterSnapshotView, d: Double)
    ensures
        s.reread().label == s.label,
        s.reread().is_free_tier == s.is_free_tier,
        s.reread().total_credits == reread_amount(s.total_credits),
        s.reread().total_usage == reread_amount(s.total_usage),
        s.reread().usage_daily == reread_amount(s.usage_daily),
        s.reread().usage_weekly == reread_amount(s.usage_weekly),
        s.reread().usage_monthly == reread_amount(s.usage_monthly),
        s.reread().limit is Some <==> s.limit is Some,
        s.limit is Some ==> s.reread().limit->0 == reread_amount(s.limit->0),
        s.reread().limit_remaining is Some <==> s.limit_remaining is Some,
        s.limit_remaining is Some ==> s.reread().limit_remaining->0 == reread_amount(
            s.limit_remaining->0,
        ),
        is_short_decimal(d) ==> reread_amount(d) == d,
        !is_short_decimal(d) && double_reread(d.bits) is Some ==> reread_amount(d).bits
            == double_reread(d.bits)->0,
{
}

/// A document that is no object, or has no entry `snapshot`, keeps none; one that is no JSON
/// cannot be read.
pub proof fn law_documents_without_snapshot_are_told(bytes: Seq<u8>)
    ensures
        json_parsed(bytes) matches Err(e) ==> cached_snapshot(bytes) == Err::<
            OpenRouterSnapshotView,
            AppErrorView,
        >(AppErrorView::Json(e)),
        json_parsed(bytes) matches Ok(JsonTree::Object(m)) ==> m.contains_key("snapshot"@)
            ==> cached_snapshot(bytes) == Ok::<OpenRouterSnapshotView, AppErrorView>(
            snapshot_in(m["snapshot"@]),
        ),
        json_parsed(bytes) matches Ok(t) ==> !(t is Object && t->Object_0.contains_key("snapshot"@))
            ==> cached_snapshot(bytes) == Err::<OpenRouterSnapshotView, AppErrorView>(
            AppErrorView::Schema("openrouter cache missing 'snapshot' field"@),
        ),
{
}

/// An amount that is kept as an integer is read as the double nearest to it, which is the integer
/// itself where it has less than 54 bits.
pub proof fn law_integers_are_read_as_amounts(t: JsonTree, key: Seq<char>, n: int)
    requires
        match t.entry(key) {
            JsonTree::Number(JsonNumber::Unsigned(u)) => n == u,
            JsonTree::Number(JsonNumber::Negative(i)) => n == i,
            _ => false,
        },
    ensures
        amount_at(t, key) == Some(amount_or_zero(t, key)),
        amount_or_zero(t, key).bits == nearest_double(n),
        is_nearest_double(amount_or_zero(t, key), n),
        -0x20_0000_0000_0000 < n < 0x20_0000_0000_0000 ==> amount_or_zero(t, key).units() == n
            * one(),
{
    law_one_double_is_nearest(n);
    if -0x20_0000_0000_0000 < n < 0x20_0000_0000_0000 {
        law_small_integers_are_exact(amount_or_zero(t, key), n);
    }
}

/// A document can be read again only where every amount in it can.
proof fn lemma_rereads_needs_amounts(s: OpenRouterSnapshotView)
    requires
        document_tree(s).document_rereads(|bits: u64| read_again(bits, double_reread(bits))),
    ensures
        s.rereads(),
{
    lemma_keys_differ();
    let reread = |bits: u64| read_again(bits, double_reread(bits));
    let m = snapshot_tree(s).entries();
    assert(document_tree(s).entries().contains_key("snapshot"@));
    assert(snapshot_tree(s).record_rereads(reread));
    assert(m.contains_key("total_credits"@) && m.contains_key("total_usage"@));
    assert(m.contains_key("usage_daily"@) && m.contains_key("usage_weekly"@));
    assert(m.contains_key("usage_monthly"@));
    assert(m.contains_key("limit"@) && m.contains_key("limit_remaining"@));
}

/// Reading a document whose doubles went through text gives the snapshot with its amounts read
/// again.
proof fn lemma_reread_snapshot(s: OpenRouterSnapshotView)
    requires
        s.rereads(),
    ensures
        document_tree(s).document_rereads(|bits: u64| read_again(bits, double_reread(bits))),
        kept_in(document_tree(s).document_reread(|bits: u64| read_again(bits, double_reread(bits)))) == Ok::<
            OpenRouterSnapshotView,
            AppErrorView,
        >(s.reread()),
{
    lemma_keys_differ();
    let reread = |bits: u64| read_again(bits, double_reread(bits));
    let m = snapshot_tree(s).entries();
    assert(snapshot_tree(s).record_rereads(reread));
    let t = document_tree(s).document_reread(reread);
    assert(t.entry("snapshot"@) == snapshot_tree(s).record_reread(reread));
    let r = t.entry("snapshot"@);
    assert forall|k: Seq<char>| m.contains_key(k) implies #[trigger] r.entry(k)
        == m[k].scalar_reread(reread) by {}
    assert(snapshot_in(r) == s.reread()) by {
        assert(r.entry("label"@) == m["label"@].scalar_reread(reread));
        assert(r.entry("total_credits"@) == m["total_credits"@].scalar_reread(reread));
        assert(r.entry("total_usage"@) == m["total_usage"@].scalar_reread(reread));
        assert(r.entry("usage_daily"@) == m["usage_daily"@].scalar_reread(reread));
        assert(r.entry("usage_weekly"@) == m["usage_weekly"@].scalar_reread(reread));
        assert(r.entry("usage_monthly"@) == m["usage_monthly"@].scalar_reread(reread));
        assert(r.entry("is_free_tier"@) == m["is_free_tier"@].scalar_reread(reread));
        assert(r.entry("limit"@) == m["limit"@].scalar_reread(reread));
        assert(r.entry("limit_remaining"@) == m["limit_remaining"@].scalar_reread(reread));
    }
}

/// The payload that keeps a snapshot in the cache. Reading it gives the snapshot back, with each
/// amount as it is read where it was written, which is the same where every one is short. Where
/// an amount is not read at all, the payload is not.
pub fn cache_payload(snap: &OpenRouterSnapshot) -> (bytes: Vec<u8>)
    ensures
        bytes@ == json_text(document_tree(snap@)),
        snap@.rereads() ==> cached_snapshot(bytes@) == Ok::<OpenRouterSnapshotView, AppErrorView>(
            snap@.reread(),
        ),
        !snap@.rereads() ==> cached_snapshot(bytes@) is Err && cached_snapshot(bytes@)->Err_0
            is Json,
        snap@.has_short_amounts() ==> cached_snapshot(bytes@) == Ok::<
            OpenRouterSnapshotView,
            AppErrorView,
        >(snap@),
{
    let mut v = null();
    set_entry(&mut v, "snapshot", serde_repr(snap));
    proof {
        assert(json_tree(v) == document_tree(snap@));
        assert(snapshot_tree(snap@).is_record());
        if snap@.has_short_amounts() {
            law_short_amounts_are_kept(snap@);
        }
        if snap@.rereads() {
            lemma_reread_snapshot(snap@);
        } else if document_tree(snap@).document_rereads(
            |bits: u64| read_again(bits, double_reread(bits)),
        ) {
            lemma_rereads_needs_amounts(snap@);
        }
    }
    match write_document(&v) {
        Some(bytes) => bytes,
        None => Vec::new(),
    }
}

}

//! The schema source loader: reads parsed schema documents into control
//! definitions, and groups raw documents of the upstream releases into
//! versioned snapshots. All document structure is checked here, after the
//! outside parser has turned text into the plain [`YamlValue`] tree; a
//! malformed document aborts loading, since a silently dropped control would
//! desynchronize the generated catalogue from the runtime.

use vstd::prelude::*;

use crate::meta::{
    Control, ControlEnumValue, ControlSize, ControlType, ControlView, EnumValueView,
};
use crate::meta::spec_map_size;
use crate::meta::spec_map_type;
use crate::strutil::str_eq;
use crate::version::{parse_version, spec_parsed_version, Version};
use crate::yaml::{load_yaml_documents, spec_list_view, spec_pairs_view, spec_yaml_documents, YamlValue, YamlView};

verus! {

/// Why a schema corpus could not be loaded. All of these abort generation:
/// there is no best-effort partial catalogue.
#[derive(Debug, Clone)]
pub enum LoadError {
    /// A document's text does not parse at all.
    UnparsableDocument,
    /// A document's structure is not that of a schema document.
    MalformedDocument,
    /// A control names a scalar kind that no alias answers to.
    UnknownControlType(String),
    /// A size entry that is neither an integer in machine range nor the
    /// variable-length marker.
    InvalidSize(String),
}

/// The mathematical value of a [`LoadError`].
#[verifier::ext_equal]
pub enum LoadErrorView {
    UnparsableDocument,
    MalformedDocument,
    UnknownControlType(Seq<char>),
    InvalidSize(Seq<char>),
}

impl View for LoadError {
    type V = LoadErrorView;

    open spec fn view(&self) -> LoadErrorView {
        match self {
            LoadError::UnparsableDocument => LoadErrorView::UnparsableDocument,
            LoadError::MalformedDocument => LoadErrorView::MalformedDocument,
            LoadError::UnknownControlType(s) => LoadErrorView::UnknownControlType(s@),
            LoadError::InvalidSize(s) => LoadErrorView::InvalidSize(s@),
        }
    }
}

/// The first value a mapping binds to the given string key, if any.
pub open spec fn spec_lookup(m: Seq<(YamlView, YamlView)>, key: Seq<char>) -> Option<YamlView>
    decreases m.len(),
{
    if m.len() == 0 {
        None
    } else if m[0].0 matches YamlView::Str(k) && k == key {
        Some(m[0].1)
    } else {
        spec_lookup(m.drop_first(), key)
    }
}

proof fn lemma_lookup_skip(m: Seq<(YamlView, YamlView)>, key: Seq<char>, i: int)
    requires
        0 <= i <= m.len(),
        forall|j: int|
            0 <= j < i ==> !((#[trigger] m[j]).0 matches YamlView::Str(k) && k == key),
    ensures
        spec_lookup(m, key) == spec_lookup(m.skip(i), key),
    decreases i,
{
    if i == 0 {
        assert(m.skip(0) =~= m);
    } else {
        lemma_lookup_skip(m.drop_first(), key, i - 1);
        assert(m.drop_first().skip(i - 1) =~= m.skip(i));
    }
}

/// Find the first value a mapping binds to `key`.
fn mapping_lookup<'a>(m: &'a Vec<(YamlValue, YamlValue)>, key: &str) -> (r: Option<
    &'a YamlValue,
>)
    ensures
        match spec_lookup(spec_pairs_view(m@), key@) {
            Some(x) => (r matches Some(rv) && rv@ == x),
            None => r is None,
        },
{
    let ghost pairs = spec_pairs_view(m@);
    let n = m.len();
    let mut i: usize = 0;
    while i < n
        invariant
            n == m@.len(),
            pairs == spec_pairs_view(m@),
            pairs.len() == n,
            0 <= i <= n,
            forall|j: int|
                0 <= j < i ==> !((#[trigger] pairs[j]).0 matches YamlView::Str(k) && k == key@),
        decreases n - i,
    {
        match &m[i].0 {
            YamlValue::Str(s) => {
                if str_eq(s.as_str(), key) {
                    proof {
                        lemma_lookup_skip(pairs, key@, i as int);
                        assert(pairs.skip(i as int)[0] == pairs[i as int]);
                        assert(pairs[i as int].1 == m@[i as int].1@);
                    }
                    return Some(&m[i].1);
                }
            },
            _ => {},
        }
        proof {
            assert(!(pairs[i as int].0 matches YamlView::Str(k) && k == key@));
        }
        i += 1;
    }
    proof {
        lemma_lookup_skip(pairs, key@, n as int);
        assert(pairs.skip(n as int) =~= Seq::<(YamlView, YamlView)>::empty());
    }
    None
}

/// The enumerator one `enum` list element declares: a mapping with a string
/// name, an integer value in 32-bit range, and a string description.
pub open spec fn spec_parse_enum_entry(v: YamlView) -> Result<EnumValueView, LoadErrorView> {
    match v {
        YamlView::Mapping(m) => match spec_lookup(m, "name"@) {
            Some(YamlView::Str(n)) => match spec_lookup(m, "value"@) {
                Some(YamlView::Int(x)) => if i32::MIN <= x <= i32::MAX {
                    match spec_lookup(m, "description"@) {
                        Some(YamlView::Str(d)) => Ok(
                            EnumValueView { name: n, value: x as i32, description: d },
                        ),
                        _ => Err(LoadErrorView::MalformedDocument),
                    }
                } else {
                    Err(LoadErrorView::MalformedDocument)
                },
                _ => Err(LoadErrorView::MalformedDocument),
            },
            _ => Err(LoadErrorView::MalformedDocument),
        },
        _ => Err(LoadErrorView::MalformedDocument),
    }
}

fn parse_enum_entry(v: &YamlValue) -> (r: Result<ControlEnumValue, LoadError>)
    ensures
        match spec_parse_enum_entry(v@) {
            Ok(e) => (r matches Ok(out) && out@ == e),
            Err(e) => (r matches Err(out) && out@ == e),
        },
{
    match v {
        YamlValue::Mapping(m) => {
            let name = match mapping_lookup(m, "name") {
                Some(YamlValue::Str(s)) => s.clone(),
                _ => {
                    return Err(LoadError::MalformedDocument);
                },
            };
            let value = match mapping_lookup(m, "value") {
                Some(YamlValue::Int(x)) => *x,
                _ => {
                    return Err(LoadError::MalformedDocument);
                },
            };
            if !(i32::MIN as i64 <= value && value <= i32::MAX as i64) {
                return Err(LoadError::MalformedDocument);
            }
            let description = match mapping_lookup(m, "description") {
                Some(YamlValue::Str(s)) => s.clone(),
                _ => {
                    return Err(LoadError::MalformedDocument);
                },
            };
            Ok(ControlEnumValue { name, value: value as i32, description })
        },
        _ => Err(LoadError::MalformedDocument),
    }
}

/// The enumerators an `enum` list declares, in order.
pub open spec fn spec_parse_enum_list(l: Seq<YamlView>) -> Result<Seq<EnumValueView>, LoadErrorView>
    decreases l.len(),
{
    if l.len() == 0 {
        Ok(Seq::empty())
    } else {
        match spec_parse_enum_entry(l[0]) {
            Err(e) => Err(e),
            Ok(head) => match spec_parse_enum_list(l.drop_first()) {
                Err(e) => Err(e),
                Ok(rest) => Ok(seq![head] + rest),
            },
        }
    }
}

fn parse_enum_list(l: &Vec<YamlValue>) -> (r: Result<Vec<ControlEnumValue>, LoadError>)
    ensures
        match spec_parse_enum_list(spec_list_view(l@)) {
            Ok(es) => (r matches Ok(out) && out.deep_view() == es),
            Err(e) => (r matches Err(out) && out@ == e),
        },
{
    let ghost lv = spec_list_view(l@);
    let mut out: Vec<ControlEnumValue> = Vec::new();
    let n = l.len();
    let mut i: usize = 0;
    proof {
        assert(lv.skip(0) =~= lv);
        assert(out.deep_view() =~= Seq::<EnumValueView>::empty());
    }
    while i < n
        invariant
            n == l@.len(),
            lv == spec_list_view(l@),
            lv.len() == n,
            0 <= i <= n,
            spec_parse_enum_list(lv) == (match spec_parse_enum_list(lv.skip(i as int)) {
                Ok(rest) => Ok::<Seq<EnumValueView>, LoadErrorView>(out.deep_view() + rest),
                Err(e) => Err::<Seq<EnumValueView>, LoadErrorView>(e),
            }),
        decreases n - i,
    {
        proof {
            assert(lv.skip(i as int)[0] == lv[i as int]);
            assert(lv[i as int] == l@[i as int]@);
            assert(lv.skip(i as int).drop_first() =~= lv.skip(i + 1 as int));
        }
        let ghost prev = out.deep_view();
        match parse_enum_entry(&l[i]) {
            Ok(e) => {
                out.push(e);
                proof {
                    assert(out.deep_view() =~= prev.push(
                        spec_parse_enum_entry(lv[i as int])->Ok_0,
                    ));
                    match spec_parse_enum_list(lv.skip(i + 1 as int)) {
                        Ok(rest) => {
                            assert(prev + (seq![spec_parse_enum_entry(lv[i as int])->Ok_0] + rest)
                                =~= out.deep_view() + rest);
                        },
                        Err(_) => {},
                    }
                }
            },
            Err(e) => {
                return Err(e);
            },
        }
        i += 1;
    }
    proof {
        assert(lv.skip(n as int) =~= Seq::<YamlView>::empty());
        assert(out.deep_view() + Seq::<EnumValueView>::empty() =~= out.deep_view());
    }
    Ok(out)
}

/// The dimensions a `size` list declares, in order.
pub open spec fn spec_parse_sizes(l: Seq<YamlView>) -> Result<Seq<ControlSize>, LoadErrorView>
    decreases l.len(),
{
    if l.len() == 0 {
        Ok(Seq::empty())
    } else {
        match spec_map_size(l[0]) {
            Err(m) => Err(LoadErrorView::InvalidSize(m)),
            Ok(head) => match spec_parse_sizes(l.drop_first()) {
                Err(e) => Err(e),
                Ok(rest) => Ok(seq![head] + rest),
            },
        }
    }
}

fn parse_sizes(l: &Vec<YamlValue>) -> (r: Result<Vec<ControlSize>, LoadError>)
    ensures
        match spec_parse_sizes(spec_list_view(l@)) {
            Ok(ss) => (r matches Ok(out) && out@ == ss),
            Err(e) => (r matches Err(out) && out@ == e),
        },
{
    let ghost lv = spec_list_view(l@);
    let mut out: Vec<ControlSize> = Vec::new();
    let n = l.len();
    let mut i: usize = 0;
    proof {
        assert(lv.skip(0) =~= lv);
        assert(out@ =~= Seq::<ControlSize>::empty());
    }
    while i < n
        invariant
            n == l@.len(),
            lv == spec_list_view(l@),
            lv.len() == n,
            0 <= i <= n,
            spec_parse_sizes(lv) == (match spec_parse_sizes(lv.skip(i as int)) {
                Ok(rest) => Ok::<Seq<ControlSize>, LoadErrorView>(out@ + rest),
                Err(e) => Err::<Seq<ControlSize>, LoadErrorView>(e),
            }),
        decreases n - i,
    {
        proof {
            assert(lv.skip(i as int)[0] == lv[i as int]);
            assert(lv[i as int] == l@[i as int]@);
            assert(lv.skip(i as int).drop_first() =~= lv.skip(i + 1 as int));
        }
        let ghost prev = out@;
        match ControlSize::try_from(&l[i]) {
            Ok(s) => {
                out.push(s);
                proof {
                    match spec_parse_sizes(lv.skip(i + 1 as int)) {
                        Ok(rest) => {
                            assert(prev + (seq![spec_map_size(lv[i as int])->Ok_0] + rest) =~= out@
                                + rest);
                        },
                        Err(_) => {},
                    }
                }
            },
            Err(m) => {
                return Err(LoadError::InvalidSize(m));
            },
        }
        i += 1;
    }
    proof {
        assert(lv.skip(n as int) =~= Seq::<YamlView>::empty());
        assert(out@ + Seq::<ControlSize>::empty() =~= out@);
    }
    Ok(out)
}

/// The view of an optional vendor string.
pub open spec fn spec_opt_str(o: Option<String>) -> Option<Seq<char>> {
    match o {
        Option::None => None,
        Option::Some(s) => Some(s@),
    }
}

/// The control one schema entry declares. The vendor is the document's, when
/// it declares one; otherwise the draft sentinel for entries marked
/// experimental, or the core vendor.
pub open spec fn spec_parse_control(
    name_node: YamlView,
    val: YamlView,
    doc_vendor: Option<Seq<char>>,
) -> Result<ControlView, LoadErrorView> {
    match name_node {
        YamlView::Str(name) => match val {
            YamlView::Mapping(m) => {
                let vendor = match doc_vendor {
                    Some(v) => v,
                    None => if spec_lookup(m, "draft"@) matches Some(YamlView::Bool(true)) {
                        "draft"@
                    } else {
                        "libcamera"@
                    },
                };
                match spec_lookup(m, "type"@) {
                    Some(YamlView::Str(tn)) => match spec_map_type(tn) {
                        None => Err(
                            LoadErrorView::UnknownControlType("Unknown control type "@ + tn),
                        ),
                        Some(typ) => match spec_lookup(m, "description"@) {
                            Some(YamlView::Str(desc)) => {
                                let size_r = match spec_lookup(m, "size"@) {
                                    Some(YamlView::List(l)) => match spec_parse_sizes(l) {
                                        Err(e) => Err(e),
                                        Ok(ss) => Ok(Some(ss)),
                                    },
                                    _ => Ok(None),
                                };
                                match size_r {
                                    Err(e) => Err(e),
                                    Ok(size) => {
                                        let enum_r = match spec_lookup(m, "enum"@) {
                                            Some(YamlView::List(l)) => match spec_parse_enum_list(
                                                l,
                                            ) {
                                                Err(e) => Err(e),
                                                Ok(es) => Ok(Some(es)),
                                            },
                                            _ => Ok(None),
                                        };
                                        match enum_r {
                                            Err(e) => Err(e),
                                            Ok(enumeration) => Ok(
                                                ControlView {
                                                    name,
                                                    vendor,
                                                    typ,
                                                    description: desc,
                                                    size,
                                                    enumeration,
                                                },
                                            ),
                                        }
                                    },
                                }
                            },
                            _ => Err(LoadErrorView::MalformedDocument),
                        },
                    },
                    _ => Err(LoadErrorView::MalformedDocument),
                }
            },
            _ => Err(LoadErrorView::MalformedDocument),
        },
        _ => Err(LoadErrorView::MalformedDocument),
    }
}

fn parse_control(name_node: &YamlValue, val: &YamlValue, doc_vendor: &Option<String>) -> (r:
    Result<Control, LoadError>)
    ensures
        match spec_parse_control(name_node@, val@, spec_opt_str(*doc_vendor)) {
            Ok(c) => (r matches Ok(out) && out@ == c),
            Err(e) => (r matches Err(out) && out@ == e),
        },
{
    let name = match name_node {
        YamlValue::Str(s) => s.clone(),
        _ => {
            return Err(LoadError::MalformedDocument);
        },
    };
    let m = match val {
        YamlValue::Mapping(m) => m,
        _ => {
            return Err(LoadError::MalformedDocument);
        },
    };
    let vendor: String = match doc_vendor {
        Option::Some(v) => v.clone(),
        Option::None => {
            let is_draft = match mapping_lookup(m, "draft") {
                Some(YamlValue::Bool(b)) => *b,
                _ => false,
            };
            if is_draft {
                "draft".to_owned()
            } else {
                "libcamera".to_owned()
            }
        },
    };
    let kind_name = match mapping_lookup(m, "type") {
        Some(YamlValue::Str(s)) => s,
        _ => {
            return Err(LoadError::MalformedDocument);
        },
    };
    let typ = match ControlType::try_from(kind_name.as_str()) {
        Ok(t) => t,
        Err(msg) => {
            return Err(LoadError::UnknownControlType(msg));
        },
    };
    let description = match mapping_lookup(m, "description") {
        Some(YamlValue::Str(s)) => s.clone(),
        _ => {
            return Err(LoadError::MalformedDocument);
        },
    };
    let size: Option<Vec<ControlSize>> = match mapping_lookup(m, "size") {
        Some(YamlValue::List(l)) => {
            match parse_sizes(l) {
                Ok(ss) => Some(ss),
                Err(e) => {
                    return Err(e);
                },
            }
        },
        _ => Option::None,
    };
    let enumeration: Option<Vec<ControlEnumValue>> = match mapping_lookup(m, "enum") {
        Some(YamlValue::List(l)) => {
            match parse_enum_list(l) {
                Ok(es) => Some(es),
                Err(e) => {
                    return Err(e);
                },
            }
        },
        _ => Option::None,
    };
    Ok(Control { name, vendor, typ, description, size, enumeration })
}

/// The controls a document's entry pairs declare, in order.
pub open spec fn spec_parse_pairs(
    pairs: Seq<(YamlView, YamlView)>,
    doc_vendor: Option<Seq<char>>,
) -> Result<Seq<ControlView>, LoadErrorView>
    decreases pairs.len(),
{
    if pairs.len() == 0 {
        Ok(Seq::empty())
    } else {
        match spec_parse_control(pairs[0].0, pairs[0].1, doc_vendor) {
            Err(e) => Err(e),
            Ok(head) => match spec_parse_pairs(pairs.drop_first(), doc_vendor) {
                Err(e) => Err(e),
                Ok(rest) => Ok(seq![head] + rest),
            },
        }
    }
}

fn parse_pairs_into(
    out: &mut Vec<Control>,
    pairs: &Vec<(YamlValue, YamlValue)>,
    doc_vendor: &Option<String>,
) -> (r: Result<(), LoadError>)
    ensures
        match spec_parse_pairs(spec_pairs_view(pairs@), spec_opt_str(*doc_vendor)) {
            Ok(cs) => (r is Ok && final(out).deep_view() == old(out).deep_view() + cs),
            Err(e) => (r matches Err(x) && x@ == e),
        },
{
    let ghost pv = spec_pairs_view(pairs@);
    let ghost vendor = spec_opt_str(*doc_vendor);
    let ghost base = out.deep_view();
    let n = pairs.len();
    let mut i: usize = 0;
    proof {
        assert(pv.skip(0) =~= pv);
        assert(base + Seq::<ControlView>::empty() =~= base);
    }
    while i < n
        invariant
            n == pairs@.len(),
            pv == spec_pairs_view(pairs@),
            vendor == spec_opt_str(*doc_vendor),
            pv.len() == n,
            0 <= i <= n,
            base.len() <= out.deep_view().len(),
            out.deep_view().take(base.len() as int) == base,
            spec_parse_pairs(pv, vendor) == (match spec_parse_pairs(pv.skip(i as int), vendor) {
                Ok(rest) => Ok::<Seq<ControlView>, LoadErrorView>(
                    out.deep_view().skip(base.len() as int) + rest,
                ),
                Err(e) => Err::<Seq<ControlView>, LoadErrorView>(e),
            }),
        decreases n - i,
    {
        proof {
            assert(pv.skip(i as int)[0] == pv[i as int]);
            assert(pv[i as int].0 == pairs@[i as int].0@);
            assert(pv[i as int].1 == pairs@[i as int].1@);
            assert(pv.skip(i as int).drop_first() =~= pv.skip(i + 1 as int));
        }
        let ghost prev = out.deep_view();
        match parse_control(&pairs[i].0, &pairs[i].1, doc_vendor) {
            Ok(c) => {
                out.push(c);
                proof {
                    let head = spec_parse_control(pv[i as int].0, pv[i as int].1, vendor)->Ok_0;
                    assert(out.deep_view() =~= prev.push(head));
                    assert(out.deep_view().take(base.len() as int) =~= base);
                    match spec_parse_pairs(pv.skip(i + 1 as int), vendor) {
                        Ok(rest) => {
                            assert(prev.skip(base.len() as int) + (seq![head] + rest)
                                =~= out.deep_view().skip(base.len() as int) + rest);
                        },
                        Err(_) => {},
                    }
                }
            },
            Err(e) => {
                return Err(e);
            },
        }
        i += 1;
    }
    proof {
        assert(pv.skip(n as int) =~= Seq::<(YamlView, YamlView)>::empty());
        assert(out.deep_view() =~= base + out.deep_view().skip(base.len() as int));
    }
    Ok(())
}

/// The controls a document's `controls` list declares: each list element is a
/// mapping of control names to their declarations.
pub open spec fn spec_parse_entries(
    entries: Seq<YamlView>,
    doc_vendor: Option<Seq<char>>,
) -> Result<Seq<ControlView>, LoadErrorView>
    decreases entries.len(),
{
    if entries.len() == 0 {
        Ok(Seq::empty())
    } else {
        match entries[0] {
            YamlView::Mapping(pairs) => match spec_parse_pairs(pairs, doc_vendor) {
                Err(e) => Err(e),
                Ok(head) => match spec_parse_entries(entries.drop_first(), doc_vendor) {
                    Err(e) => Err(e),
                    Ok(rest) => Ok(head + rest),
                },
            },
            _ => Err(LoadErrorView::MalformedDocument),
        }
    }
}

fn parse_entries_into(
    out: &mut Vec<Control>,
    entries: &Vec<YamlValue>,
    doc_vendor: &Option<String>,
) -> (r: Result<(), LoadError>)
    ensures
        match spec_parse_entries(spec_list_view(entries@), spec_opt_str(*doc_vendor)) {
            Ok(cs) => (r is Ok && final(out).deep_view() == old(out).deep_view() + cs),
            Err(e) => (r matches Err(x) && x@ == e),
        },
{
    let ghost ev = spec_list_view(entries@);
    let ghost vendor = spec_opt_str(*doc_vendor);
    let ghost base = out.deep_view();
    let n = entries.len();
    let mut i: usize = 0;
    proof {
        assert(ev.skip(0) =~= ev);
        assert(base + Seq::<ControlView>::empty() =~= base);
    }
    while i < n
        invariant
            n == entries@.len(),
            ev == spec_list_view(entries@),
            vendor == spec_opt_str(*doc_vendor),
            ev.len() == n,
            0 <= i <= n,
            base.len() <= out.deep_view().len(),
            out.deep_view().take(base.len() as int) == base,
            spec_parse_entries(ev, vendor) == (match spec_parse_entries(
                ev.skip(i as int),
                vendor,
            ) {
                Ok(rest) => Ok::<Seq<ControlView>, LoadErrorView>(
                    out.deep_view().skip(base.len() as int) + rest,
                ),
                Err(e) => Err::<Seq<ControlView>, LoadErrorView>(e),
            }),
        decreases n - i,
    {
        proof {
            assert(ev.skip(i as int)[0] == ev[i as int]);
            assert(ev[i as int] == entries@[i as int]@);
            assert(ev.skip(i as int).drop_first() =~= ev.skip(i + 1 as int));
        }
        let ghost prev = out.deep_view();
        match &entries[i] {
            YamlValue::Mapping(pairs) => {
                match parse_pairs_into(out, pairs, doc_vendor) {
                    Ok(_) => {
                        proof {
                            let head = spec_parse_pairs(
                                spec_pairs_view(pairs@),
                                vendor,
                            )->Ok_0;
                            assert(out.deep_view().take(base.len() as int) =~= base);
                            match spec_parse_entries(ev.skip(i + 1 as int), vendor) {
                                Ok(rest) => {
                                    assert(prev.skip(base.len() as int) + (head + rest)
                                        =~= out.deep_view().skip(base.len() as int) + rest);
                                },
                                Err(_) => {},
                            }
                        }
                    },
                    Err(e) => {
                        return Err(e);
                    },
                }
            },
            _ => {
                return Err(LoadError::MalformedDocument);
            },
        }
        i += 1;
    }
    proof {
        assert(ev.skip(n as int) =~= Seq::<YamlView>::empty());
        assert(out.deep_view() =~= base + out.deep_view().skip(base.len() as int));
    }
    Ok(())
}

/// The controls one document declares: its optional `vendor` tag applies to
/// every entry of its `controls` list.
pub open spec fn spec_parse_doc(root: YamlView) -> Result<Seq<ControlView>, LoadErrorView> {
    match root {
        YamlView::Mapping(m) => {
            let vendor = match spec_lookup(m, "vendor"@) {
                Some(YamlView::Str(v)) => Some(v),
                _ => None,
            };
            match spec_lookup(m, "controls"@) {
                Some(YamlView::List(entries)) => spec_parse_entries(entries, vendor),
                _ => Err(LoadErrorView::MalformedDocument),
            }
        },
        _ => Err(LoadErrorView::MalformedDocument),
    }
}

fn parse_doc_into(out: &mut Vec<Control>, root: &YamlValue) -> (r: Result<(), LoadError>)
    ensures
        match spec_parse_doc(root@) {
            Ok(cs) => (r is Ok && final(out).deep_view() == old(out).deep_view() + cs),
            Err(e) => (r matches Err(x) && x@ == e),
        },
{
    let m = match root {
        YamlValue::Mapping(m) => m,
        _ => {
            return Err(LoadError::MalformedDocument);
        },
    };
    let doc_vendor: Option<String> = match mapping_lookup(m, "vendor") {
        Some(YamlValue::Str(v)) => Some(v.clone()),
        _ => Option::None,
    };
    match mapping_lookup(m, "controls") {
        Some(YamlValue::List(entries)) => parse_entries_into(out, entries, &doc_vendor),
        _ => Err(LoadError::MalformedDocument),
    }
}

/// The controls all documents of one file declare, in order.
pub open spec fn spec_parse_docs(docs: Seq<YamlView>) -> Result<Seq<ControlView>, LoadErrorView>
    decreases docs.len(),
{
    if docs.len() == 0 {
        Ok(Seq::empty())
    } else {
        match spec_parse_doc(docs[0]) {
            Err(e) => Err(e),
            Ok(head) => match spec_parse_docs(docs.drop_first()) {
                Err(e) => Err(e),
                Ok(rest) => Ok(head + rest),
            },
        }
    }
}

fn parse_docs_into(out: &mut Vec<Control>, docs: &Vec<YamlValue>) -> (r: Result<(), LoadError>)
    ensures
        match spec_parse_docs(spec_list_view(docs@)) {
            Ok(cs) => (r is Ok && final(out).deep_view() == old(out).deep_view() + cs),
            Err(e) => (r matches Err(x) && x@ == e),
        },
{
    let ghost dv = spec_list_view(docs@);
    let ghost base = out.deep_view();
    let n = docs.len();
    let mut i: usize = 0;
    proof {
        assert(dv.skip(0) =~= dv);
        assert(base + Seq::<ControlView>::empty() =~= base);
    }
    while i < n
        invariant
            n == docs@.len(),
            dv == spec_list_view(docs@),
            dv.len() == n,
            0 <= i <= n,
            base.len() <= out.deep_view().len(),
            out.deep_view().take(base.len() as int) == base,
            spec_parse_docs(dv) == (match spec_parse_docs(dv.skip(i as int)) {
                Ok(rest) => Ok::<Seq<ControlView>, LoadErrorView>(
                    out.deep_view().skip(base.len() as int) + rest,
                ),
                Err(e) => Err::<Seq<ControlView>, LoadErrorView>(e),
            }),
        decreases n - i,
    {
        proof {
            assert(dv.skip(i as int)[0] == dv[i as int]);
            assert(dv[i as int] == docs@[i as int]@);
            assert(dv.skip(i as int).drop_first() =~= dv.skip(i + 1 as int));
        }
        let ghost prev = out.deep_view();
        match parse_doc_into(out, &docs[i]) {
            Ok(_) => {
                proof {
                    let head = spec_parse_doc(dv[i as int])->Ok_0;
                    assert(out.deep_view().take(base.len() as int) =~= base);
                    match spec_parse_docs(dv.skip(i + 1 as int)) {
                        Ok(rest) => {
                            assert(prev.skip(base.len() as int) + (head + rest) =~= out.deep_view()
                                .skip(base.len() as int) + rest);
                        },
                        Err(_) => {},
                    }
                }
            },
            Err(e) => {
                return Err(e);
            },
        }
        i += 1;
    }
    proof {
        assert(dv.skip(n as int) =~= Seq::<YamlView>::empty());
        assert(out.deep_view() =~= base + out.deep_view().skip(base.len() as int));
    }
    Ok(())
}

/// The controls one document text declares.
pub open spec fn spec_parse_file(text: Seq<char>) -> Result<Seq<ControlView>, LoadErrorView> {
    match spec_yaml_documents(text) {
        None => Err(LoadErrorView::UnparsableDocument),
        Some(docs) => spec_parse_docs(docs),
    }
}

/// The view of a list of named documents.
pub open spec fn spec_files_view(fs: Seq<(String, String)>) -> Seq<(Seq<char>, Seq<char>)> {
    Seq::new(
        fs.len(),
        |i: int|
            if 0 <= i < fs.len() {
                (fs[i].0@, fs[i].1@)
            } else {
                (Seq::<char>::empty(), Seq::<char>::empty())
            },
    )
}

/// The controls a category's documents declare, file by file in the given
/// order, then document by document, then entry by entry.
pub open spec fn spec_parse_files(fs: Seq<(Seq<char>, Seq<char>)>) -> Result<
    Seq<ControlView>,
    LoadErrorView,
>
    decreases fs.len(),
{
    if fs.len() == 0 {
        Ok(Seq::empty())
    } else {
        match spec_parse_file(fs[0].1) {
            Err(e) => Err(e),
            Ok(head) => match spec_parse_files(fs.drop_first()) {
                Err(e) => Err(e),
                Ok(rest) => Ok(head + rest),
            },
        }
    }
}

/// Parse every schema document of one category, keyed by origin filename, into
/// the control definitions it declares, in order. Any parse failure is fatal:
/// a missing control would silently desynchronize the generated catalogue.
pub fn parse_control_files(files: &Vec<(String, String)>) -> (r: Result<Vec<Control>, LoadError>)
    ensures
        match spec_parse_files(spec_files_view(files@)) {
            Ok(cs) => (r matches Ok(out) && out.deep_view() == cs),
            Err(e) => (r matches Err(x) && x@ == e),
        },
{
    let ghost fv = spec_files_view(files@);
    let mut out: Vec<Control> = Vec::new();
    let n = files.len();
    let mut i: usize = 0;
    proof {
        assert(fv.skip(0) =~= fv);
        assert(out.deep_view() =~= Seq::<ControlView>::empty());
    }
    while i < n
        invariant
            n == files@.len(),
            fv == spec_files_view(files@),
            fv.len() == n,
            0 <= i <= n,
            spec_parse_files(fv) == (match spec_parse_files(fv.skip(i as int)) {
                Ok(rest) => Ok::<Seq<ControlView>, LoadErrorView>(out.deep_view() + rest),
                Err(e) => Err::<Seq<ControlView>, LoadErrorView>(e),
            }),
        decreases n - i,
    {
        proof {
            assert(fv.skip(i as int)[0] == fv[i as int]);
            assert(fv[i as int].1 == files@[i as int].1@);
            assert(fv.skip(i as int).drop_first() =~= fv.skip(i + 1 as int));
        }
        let ghost prev = out.deep_view();
        let docs = match load_yaml_documents(files[i].1.as_str()) {
            Some(d) => d,
            None => {
                return Err(LoadError::UnparsableDocument);
            },
        };
        proof {
            assert(docs.deep_view() =~= spec_list_view(docs@));
        }
        match parse_docs_into(&mut out, &docs) {
            Ok(_) => {
                proof {
                    let head = spec_parse_file(fv[i as int].1)->Ok_0;
                    match spec_parse_files(fv.skip(i + 1 as int)) {
                        Ok(rest) => {
                            assert(prev + (head + rest) =~= out.deep_view() + rest);
                        },
                        Err(_) => {},
                    }
                }
            },
            Err(e) => {
                return Err(e);
            },
        }
        i += 1;
    }
    proof {
        assert(fv.skip(n as int) =~= Seq::<(Seq<char>, Seq<char>)>::empty());
        assert(out.deep_view() + Seq::<ControlView>::empty() =~= out.deep_view());
    }
    Ok(out)
}

/// The raw schema documents one upstream release carries: its tag name, and
/// the control and property documents found in it, keyed by origin filename.
#[derive(Debug)]
pub struct ReleaseSource {
    pub tag: String,
    pub controls: Vec<(String, String)>,
    pub properties: Vec<(String, String)>,
}

/// The mathematical value of a [`ReleaseSource`].
#[verifier::ext_equal]
pub struct ReleaseSourceView {
    pub tag: Seq<char>,
    pub controls: Seq<(Seq<char>, Seq<char>)>,
    pub properties: Seq<(Seq<char>, Seq<char>)>,
}

impl View for ReleaseSource {
    type V = ReleaseSourceView;

    open spec fn view(&self) -> ReleaseSourceView {
        ReleaseSourceView {
            tag: self.tag@,
            controls: spec_files_view(self.controls@),
            properties: spec_files_view(self.properties@),
        }
    }
}

impl DeepView for ReleaseSource {
    type V = ReleaseSourceView;

    open spec fn deep_view(&self) -> ReleaseSourceView {
        self@
    }
}

/// One release's schema corpus under its semantic version.
#[derive(Debug)]
pub struct Snapshot {
    pub version: Version,
    pub controls: Vec<(String, String)>,
    pub properties: Vec<(String, String)>,
}

/// The mathematical value of a [`Snapshot`].
#[verifier::ext_equal]
pub struct SnapshotView {
    pub version: Version,
    pub controls: Seq<(Seq<char>, Seq<char>)>,
    pub properties: Seq<(Seq<char>, Seq<char>)>,
}

impl View for Snapshot {
    type V = SnapshotView;

    open spec fn view(&self) -> SnapshotView {
        SnapshotView {
            version: self.version,
            controls: spec_files_view(self.controls@),
            properties: spec_files_view(self.properties@),
        }
    }
}

impl DeepView for Snapshot {
    type V = SnapshotView;

    open spec fn deep_view(&self) -> SnapshotView {
        self@
    }
}

/// The part of a tag name after its last path separator.
pub open spec fn spec_last_segment(s: Seq<char>) -> Seq<char>
    decreases s.len(),
{
    if s.len() == 0 {
        s
    } else if s[s.len() - 1] == '/' {
        Seq::empty()
    } else {
        spec_last_segment(s.drop_last()).push(s[s.len() - 1])
    }
}

proof fn lemma_last_segment_skip(s: Seq<char>, k: int)
    requires
        0 <= k <= s.len(),
        forall|j: int| k <= j < s.len() ==> s[j] != '/',
        k > 0 ==> s[k - 1] == '/',
    ensures
        spec_last_segment(s) == s.skip(k),
    decreases s.len() - k,
{
    if k == s.len() {
        if k == 0 {
            assert(s.skip(0) =~= s);
        } else {
            assert(s.skip(k) =~= Seq::<char>::empty());
        }
    } else {
        lemma_last_segment_skip(s.drop_last(), k);
        assert(s.drop_last().skip(k) =~= s.skip(k).drop_last());
        assert(spec_last_segment(s) =~= s.skip(k).drop_last().push(s[s.len() - 1]));
        assert(s.skip(k).drop_last().push(s[s.len() - 1]) =~= s.skip(k));
    }
}

/// The version a release tag denotes: its last path segment must be a `v`
/// followed by a semantic version. A tag of any other shape denotes no
/// release and is silently skipped.
pub open spec fn spec_tag_version(tag: Seq<char>) -> Option<(u64, u64, u64)> {
    let seg = spec_last_segment(tag);
    if seg.len() >= 1 && seg[0] == 'v' {
        spec_parsed_version(seg.skip(1))
    } else {
        None
    }
}

/// Read the version a release tag denotes, if any.
pub fn release_version_of_tag(tag: &str) -> (r: Option<Version>)
    ensures
        match r {
            Some(v) => spec_tag_version(tag@) == Some((v.major, v.minor, v.patch)),
            None => spec_tag_version(tag@) is None,
        },
{
    let len = tag.unicode_len();
    let mut k: usize = len;
    while k > 0 && tag.get_char(k - 1) != '/'
        invariant
            len == tag@.len(),
            0 <= k <= len,
            forall|j: int| k <= j < len ==> tag@[j] != '/',
        decreases k,
    {
        k -= 1;
    }
    proof {
        lemma_last_segment_skip(tag@, k as int);
    }
    let seg = tag.substring_char(k, len);
    let seg_len = seg.unicode_len();
    if seg_len < 1 || seg.get_char(0) != 'v' {
        return None;
    }
    let rest = seg.substring_char(1, seg_len);
    proof {
        assert(rest@ =~= spec_last_segment(tag@).skip(1));
    }
    parse_version(rest)
}

/// Strict order on versions.
pub open spec fn spec_version_lt(a: Version, b: Version) -> bool {
    a.spec_le(b) && a != b
}

/// A snapshot placed into a version-ordered list: it replaces the snapshot of
/// the same version if one is there, and stands before the first greater one
/// otherwise.
pub open spec fn spec_insert_snapshot(acc: Seq<SnapshotView>, sv: SnapshotView) -> Seq<
    SnapshotView,
>
    decreases acc.len(),
{
    if acc.len() == 0 {
        seq![sv]
    } else if sv.version == acc[0].version {
        seq![sv] + acc.drop_first()
    } else if spec_version_lt(sv.version, acc[0].version) {
        seq![sv] + acc
    } else {
        seq![acc[0]] + spec_insert_snapshot(acc.drop_first(), sv)
    }
}

proof fn lemma_insert_snapshot_at(acc: Seq<SnapshotView>, sv: SnapshotView, j: int)
    requires
        0 <= j <= acc.len(),
        forall|k: int| 0 <= k < j ==> spec_version_lt((#[trigger] acc[k]).version, sv.version),
        j < acc.len() ==> !spec_version_lt(acc[j].version, sv.version),
    ensures
        spec_insert_snapshot(acc, sv) == if j < acc.len() && acc[j].version == sv.version {
            acc.update(j, sv)
        } else {
            acc.take(j) + seq![sv] + acc.skip(j)
        },
    decreases j,
{
    if j == 0 {
        if acc.len() == 0 {
            assert(spec_insert_snapshot(acc, sv) =~= acc.take(0) + seq![sv] + acc.skip(0));
        } else if acc[0].version == sv.version {
            assert(seq![sv] + acc.drop_first() =~= acc.update(0, sv));
        } else {
            assert(seq![sv] + acc =~= acc.take(0) + seq![sv] + acc.skip(0));
        }
    } else {
        assert(spec_version_lt(acc[0].version, sv.version));
        assert(!(sv.version == acc[0].version));
        assert(!spec_version_lt(sv.version, acc[0].version));
        lemma_insert_snapshot_at(acc.drop_first(), sv, j - 1);
        assert(acc.drop_first()[j - 1] == acc[j] || j == acc.len());
        if j < acc.len() && acc[j].version == sv.version {
            assert(seq![acc[0]] + acc.drop_first().update(j - 1, sv) =~= acc.update(j, sv));
        } else {
            assert(acc.drop_first().take(j - 1) =~= acc.take(j).drop_first());
            assert(acc.drop_first().skip(j - 1) =~= acc.skip(j));
            assert(seq![acc[0]] + (acc.take(j).drop_first() + seq![sv] + acc.skip(j)) =~= acc.take(
                j,
            ) + seq![sv] + acc.skip(j));
        }
    }
}

/// Place one snapshot into a version-ordered list.
fn insert_snapshot(acc: &mut Vec<Snapshot>, s: Snapshot)
    ensures
        final(acc).deep_view() == spec_insert_snapshot(old(acc).deep_view(), s@),
{
    let ghost av = acc.deep_view();
    let n = acc.len();
    let mut j: usize = 0;
    let mut scanning = true;
    while scanning && j < n
        invariant
            n == acc.len(),
            av == acc.deep_view(),
            0 <= j <= n,
            forall|k: int| 0 <= k < j ==> spec_version_lt((#[trigger] av[k]).version, s.version),
            !scanning ==> j < n && !spec_version_lt(av[j as int].version, s.version),
        decreases n - j + (if scanning {
            1int
        } else {
            0int
        }),
    {
        let c = &acc[j];
        let same = c.version.major == s.version.major && c.version.minor == s.version.minor
            && c.version.patch == s.version.patch;
        if c.version.le(&s.version) && !same {
            j += 1;
        } else {
            scanning = false;
        }
    }
    proof {
        assert(j < n ==> av[j as int].version == acc@[j as int].version);
        lemma_insert_snapshot_at(av, s@, j as int);
    }
    if j < n && {
        let c = &acc[j];
        c.version.major == s.version.major && c.version.minor == s.version.minor
            && c.version.patch == s.version.patch
    } {
        proof {
            assert(av[j as int].version == s@.version);
        }
        acc.set(j, s);
        proof {
            assert(acc.deep_view() =~~= av.update(j as int, s@));
        }
    } else {
        proof {
            assert(!(j < n && av[j as int].version == s@.version));
        }
        acc.insert(j, s);
        proof {
            assert(acc.deep_view() =~~= av.take(j as int) + seq![s@] + av.skip(j as int));
        }
    }
}

/// One release folded into the collection: skipped when its tag denotes no
/// version or the zero version, placed by version otherwise, a later release
/// of the same version replacing an earlier one.
pub open spec fn spec_collect_step(acc: Seq<SnapshotView>, r: ReleaseSourceView) -> Seq<
    SnapshotView,
> {
    match spec_tag_version(r.tag) {
        Some(t) => {
            let v = Version { major: t.0, minor: t.1, patch: t.2 };
            if v.spec_is_zero() {
                acc
            } else {
                spec_insert_snapshot(
                    acc,
                    SnapshotView { version: v, controls: r.controls, properties: r.properties },
                )
            }
        },
        None => acc,
    }
}

/// The whole corpus folded release by release, in the given order.
pub open spec fn spec_collect_from(acc: Seq<SnapshotView>, rs: Seq<ReleaseSourceView>) -> Seq<
    SnapshotView,
>
    decreases rs.len(),
{
    if rs.len() == 0 {
        acc
    } else {
        spec_collect_from(spec_collect_step(acc, rs[0]), rs.drop_first())
    }
}

/// The snapshots a corpus of releases yields: one per distinct valid, non-zero
/// version, ordered by version, later releases of one version replacing
/// earlier ones.
pub open spec fn spec_collect_snapshots(rs: Seq<ReleaseSourceView>) -> Seq<SnapshotView> {
    spec_collect_from(Seq::empty(), rs)
}

/// Whether a snapshot list is strictly ordered by version; strictness is
/// uniqueness of versions.
pub open spec fn spec_snapshots_sorted(s: Seq<SnapshotView>) -> bool {
    forall|i: int, j: int|
        0 <= i < j < s.len() ==> spec_version_lt((#[trigger] s[i]).version, (#[trigger] s[j]).version)
}

proof fn lemma_insert_members(acc: Seq<SnapshotView>, sv: SnapshotView, k: int)
    requires
        0 <= k < spec_insert_snapshot(acc, sv).len(),
    ensures
        spec_insert_snapshot(acc, sv)[k] == sv || acc.contains(spec_insert_snapshot(acc, sv)[k]),
    decreases acc.len(),
{
    let out = spec_insert_snapshot(acc, sv);
    if acc.len() == 0 {
    } else if sv.version == acc[0].version {
        if k > 0 {
            assert(out[k] == acc.drop_first()[k - 1]);
            assert(acc.contains(out[k])) by {
                assert(acc[k] == acc.drop_first()[k - 1]);
            }
        }
    } else if spec_version_lt(sv.version, acc[0].version) {
        if k > 0 {
            assert(out[k] == acc[k - 1]);
        }
    } else {
        if k == 0 {
            assert(acc.contains(acc[0]));
        } else {
            lemma_insert_members(acc.drop_first(), sv, k - 1);
            assert(out[k] == spec_insert_snapshot(acc.drop_first(), sv)[k - 1]);
            if acc.drop_first().contains(out[k]) {
                let w = choose|w: int|
                    0 <= w < acc.drop_first().len() && acc.drop_first()[w] == out[k];
                assert(acc[w + 1] == out[k]);
            }
        }
    }
}

proof fn lemma_insert_preserves_sorted(acc: Seq<SnapshotView>, sv: SnapshotView)
    requires
        spec_snapshots_sorted(acc),
    ensures
        spec_snapshots_sorted(spec_insert_snapshot(acc, sv)),
    decreases acc.len(),
{
    let out = spec_insert_snapshot(acc, sv);
    if acc.len() == 0 {
    } else if sv.version == acc[0].version {
        assert forall|i: int, j: int| 0 <= i < j < out.len() implies spec_version_lt(
            out[i].version,
            out[j].version,
        ) by {
            assert(j > 0);
            assert(out[j] == acc[j]);
            if i > 0 {
                assert(out[i] == acc[i]);
            }
        }
    } else if spec_version_lt(sv.version, acc[0].version) {
        assert forall|i: int, j: int| 0 <= i < j < out.len() implies spec_version_lt(
            out[i].version,
            out[j].version,
        ) by {
            assert(out[j] == acc[j - 1]);
            if i > 0 {
                assert(out[i] == acc[i - 1]);
            }
        }
    } else {
        assert(spec_version_lt(acc[0].version, sv.version));
        assert(spec_snapshots_sorted(acc.drop_first())) by {
            assert forall|i: int, j: int|
                0 <= i < j < acc.drop_first().len() implies spec_version_lt(
                (#[trigger] acc.drop_first()[i]).version,
                (#[trigger] acc.drop_first()[j]).version,
            ) by {
                assert(acc.drop_first()[i] == acc[i + 1]);
                assert(acc.drop_first()[j] == acc[j + 1]);
            }
        }
        lemma_insert_preserves_sorted(acc.drop_first(), sv);
        let rest = spec_insert_snapshot(acc.drop_first(), sv);
        assert forall|i: int, j: int| 0 <= i < j < out.len() implies spec_version_lt(
            out[i].version,
            out[j].version,
        ) by {
            assert(out[j] == rest[j - 1]);
            if i == 0 {
                lemma_insert_members(acc.drop_first(), sv, j - 1);
                if acc.drop_first().contains(rest[j - 1]) {
                    let w = choose|w: int|
                        0 <= w < acc.drop_first().len() && acc.drop_first()[w] == rest[j - 1];
                    assert(acc.drop_first()[w] == acc[w + 1]);
                    assert(spec_version_lt(acc[0].version, acc[w + 1].version));
                }
            } else {
                assert(out[i] == rest[i - 1]);
            }
        }
    }
}

proof fn lemma_collect_from_sorted(acc: Seq<SnapshotView>, rs: Seq<ReleaseSourceView>)
    requires
        spec_snapshots_sorted(acc),
    ensures
        spec_snapshots_sorted(spec_collect_from(acc, rs)),
    decreases rs.len(),
{
    if rs.len() == 0 {
    } else {
        match spec_tag_version(rs[0].tag) {
            Some(t) => {
                let v = Version { major: t.0, minor: t.1, patch: t.2 };
                if !v.spec_is_zero() {
                    lemma_insert_preserves_sorted(
                        acc,
                        SnapshotView {
                            version: v,
                            controls: rs[0].controls,
                            properties: rs[0].properties,
                        },
                    );
                }
            },
            None => {},
        }
        lemma_collect_from_sorted(spec_collect_step(acc, rs[0]), rs.drop_first());
    }
}

/// Collected snapshots are strictly ordered by version: each valid version
/// appears exactly once, whatever the corpus of releases holds.
pub proof fn lemma_snapshots_sorted(rs: Seq<ReleaseSourceView>)
    ensures
        spec_snapshots_sorted(spec_collect_snapshots(rs)),
{
    lemma_collect_from_sorted(Seq::empty(), rs);
}

/// Group the raw documents of the given releases into versioned snapshots:
/// one snapshot per valid, non-duplicate, non-zero semantic version, ordered
/// by version. Tags that denote no version, and the zero version that marks an
/// empty initial state, are silently skipped — they are not errors.
pub fn collect_snapshots(releases: Vec<ReleaseSource>) -> (r: Vec<Snapshot>)
    ensures
        r.deep_view() == spec_collect_snapshots(releases.deep_view()),
{
    let ghost rv = releases.deep_view();
    let mut remaining = releases;
    let mut acc: Vec<Snapshot> = Vec::new();
    proof {
        assert(acc.deep_view() =~= Seq::<SnapshotView>::empty());
        assert(remaining.deep_view() =~= rv);
    }
    while remaining.len() > 0
        invariant
            spec_collect_from(acc.deep_view(), remaining.deep_view()) == spec_collect_snapshots(
                rv,
            ),
        decreases remaining.len(),
    {
        let ghost rem = remaining.deep_view();
        let rel = remaining.remove(0);
        proof {
            assert(remaining.deep_view() =~~= rem.drop_first());
            assert(rel@ == rem[0]);
        }
        match release_version_of_tag(rel.tag.as_str()) {
            Some(v) => {
                if !v.is_zero() {
                    let snap = Snapshot {
                        version: v,
                        controls: rel.controls,
                        properties: rel.properties,
                    };
                    insert_snapshot(&mut acc, snap);
                }
            },
            None => {},
        }
    }
    proof {
        assert(remaining.deep_view() =~= Seq::<ReleaseSourceView>::empty());
    }
    acc
}

} // verus!

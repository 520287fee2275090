//! The schema documents as plain data: a YAML-shaped tree of scalars, lists
//! and insertion-ordered maps. The outside parser is consulted once, behind a
//! trusted wrapper, to turn raw document text into this tree; everything that
//! reads the tree afterwards is verified.

use vstd::prelude::*;

verus! {

broadcast use vstd::seq::axiom_seq_index_decreases, vstd::std_specs::vec::axiom_vec_decreases_to_view;

/// One parsed node of a schema document. `Real` keeps the raw spelling of a
/// floating point scalar: schema parsing never computes with it. `Bad` stands
/// for what the parser could not classify (aliases, bad values).
#[derive(Debug)]
pub enum YamlValue {
    Null,
    Bad,
    Bool(bool),
    Int(i64),
    Real(String),
    Str(String),
    List(Vec<YamlValue>),
    Mapping(Vec<(YamlValue, YamlValue)>),
}

/// The mathematical value of a [`YamlValue`] tree.
#[verifier::ext_equal]
pub enum YamlView {
    Null,
    Bad,
    Bool(bool),
    Int(i64),
    Real(Seq<char>),
    Str(Seq<char>),
    List(Seq<YamlView>),
    Mapping(Seq<(YamlView, YamlView)>),
}

/// The values of a mapping's pairs.
pub open spec fn spec_pairs_view(m: Seq<(YamlValue, YamlValue)>) -> Seq<(YamlView, YamlView)>
    decreases m,
{
    Seq::new(
        m.len(),
        |i: int|
            if 0 <= i < m.len() {
                (m[i].0@, m[i].1@)
            } else {
                (YamlView::Null, YamlView::Null)
            },
    )
}

/// The values of a list's nodes.
pub open spec fn spec_list_view(l: Seq<YamlValue>) -> Seq<YamlView>
    decreases l,
{
    Seq::new(
        l.len(),
        |i: int|
            if 0 <= i < l.len() {
                l[i]@
            } else {
                YamlView::Null
            },
    )
}

impl View for YamlValue {
    type V = YamlView;

    open spec fn view(&self) -> YamlView
        decreases self,
    {
        match self {
            YamlValue::Null => YamlView::Null,
            YamlValue::Bad => YamlView::Bad,
            YamlValue::Bool(b) => YamlView::Bool(*b),
            YamlValue::Int(i) => YamlView::Int(*i),
            YamlValue::Real(s) => YamlView::Real(s@),
            YamlValue::Str(s) => YamlView::Str(s@),
            YamlValue::List(v) => YamlView::List(spec_list_view(v@)),
            YamlValue::Mapping(v) => YamlView::Mapping(spec_pairs_view(v@)),
        }
    }
}

impl DeepView for YamlValue {
    type V = YamlView;

    open spec fn deep_view(&self) -> YamlView {
        self@
    }
}

/// What the outside YAML parser makes of a text: the documents it holds, or
/// nothing when the text does not parse. A pure function of the text.
pub uninterp spec fn spec_yaml_documents(text: Seq<char>) -> Option<Seq<YamlView>>;

#[verifier::external_type_specification]
#[verifier::external_body]
pub struct ExYaml(yaml_rust::Yaml);

/// Part of the loading wrapper below: mirrors one node of the outside parser's
/// tree into the library's tree, one variant for one variant.
#[verifier::external_body]
fn yaml_to_value(node: &yaml_rust::Yaml) -> YamlValue {
    match node {
        yaml_rust::Yaml::Real(s) => YamlValue::Real(s.clone()),
        yaml_rust::Yaml::Integer(i) => YamlValue::Int(*i),
        yaml_rust::Yaml::String(s) => YamlValue::Str(s.clone()),
        yaml_rust::Yaml::Boolean(b) => YamlValue::Bool(*b),
        yaml_rust::Yaml::Array(v) => YamlValue::List(v.iter().map(yaml_to_value).collect()),
        yaml_rust::Yaml::Hash(h) => YamlValue::Mapping(
            h.iter().map(|(k, v)| (yaml_to_value(k), yaml_to_value(v))).collect(),
        ),
        yaml_rust::Yaml::Null => YamlValue::Null,
        _ => YamlValue::Bad,
    }
}

/// Relies on yaml_rust's `YamlLoader::load_from_str`: whether a text parses,
/// and the documents it parses to, depend on the text alone; map entries keep
/// their order of appearance.
#[verifier::external_body]
pub fn load_yaml_documents(text: &str) -> (r: Option<Vec<YamlValue>>)
    ensures
        match r {
            Some(docs) => spec_yaml_documents(text@) == Some(docs.deep_view()),
            None => spec_yaml_documents(text@) is None,
        },
{
    yaml_rust::YamlLoader::load_from_str(text).ok().map(|docs| docs.iter().map(
        yaml_to_value,
    ).collect())
}

} // verus!

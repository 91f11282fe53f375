use vstd::prelude::*;
use vstd::std_specs::vec::vec_index;
use crate::carbon_date_format::{self, Timestamp};
use crate::intensity::{sp_level_of_label, str_eq, Intensity, IntensitySnapshot};
use crate::json::{members_of, node_of, nodes_of, parse_document, sp_document, JsonNode, JsonValue};

verus! {

/// Why a payload body was refused.
#[derive(Clone, Copy, Debug, PartialEq, Eq, Structural)]
pub enum DecodeError {
    /// The body is not a document of the payload grammar.
    Syntax,
    /// The document lacks the expected discriminant or fields.
    Shape,
    /// An intensity label other than the four known ones.
    UnknownLabel,
    /// A `from`/`to` field outside the fixed minute-resolution layout.
    BadTimestamp,
    /// A forecast value too large to carry.
    ValueRange,
    /// The data list, or the first item's window list, is empty: there is
    /// no current value to take.
    EmptyData,
}

/// The provider's own structured error, carried verbatim.
#[derive(Clone, Debug, PartialEq, Eq)]
pub struct ProviderError {
    pub code: String,
    pub message: String,
}

pub struct ProviderErrorV {
    pub code: Seq<char>,
    pub message: Seq<char>,
}

impl View for ProviderError {
    type V = ProviderErrorV;

    open spec fn view(&self) -> ProviderErrorV {
        ProviderErrorV { code: self.code@, message: self.message@ }
    }
}

/// One forecast window: a half-open interval with its reading. `from < to`
/// is expected of the source but passed through unchecked.
#[derive(Clone, Copy, Debug, PartialEq, Eq, Structural)]
pub struct ForecastWindow {
    pub from: Timestamp,
    pub to: Timestamp,
    pub snapshot: IntensitySnapshot,
}

/// One regional entry of a `data` payload.
#[derive(Clone, Debug, PartialEq, Eq)]
pub struct DataItem {
    pub display_name: String,
    pub windows: Vec<ForecastWindow>,
}

pub struct DataItemV {
    pub display_name: Seq<char>,
    pub windows: Seq<ForecastWindow>,
}

impl View for DataItem {
    type V = DataItemV;

    open spec fn view(&self) -> DataItemV {
        DataItemV { display_name: self.display_name@, windows: self.windows@ }
    }
}

/// What the endpoint returns: forecast data, or its own structured error.
#[derive(Clone, Debug, PartialEq, Eq)]
pub enum RegionalResult {
    Data(Vec<DataItem>),
    Error(ProviderError),
}

pub enum RegionalResultV {
    Data(Seq<DataItemV>),
    Error(ProviderErrorV),
}

impl View for RegionalResult {
    type V = RegionalResultV;

    open spec fn view(&self) -> RegionalResultV {
        match self {
            RegionalResult::Data(items) => RegionalResultV::Data(
                Seq::new(items@.len(), |i: int| items@[i]@),
            ),
            RegionalResult::Error(e) => RegionalResultV::Error(e@),
        }
    }
}

/// First member of `ms` under `key`.
pub open spec fn sp_get(ms: Seq<(Seq<char>, JsonNode)>, key: Seq<char>) -> Option<JsonNode>
    decreases ms.len(),
{
    if ms.len() == 0 {
        None
    } else if ms[0].0 == key {
        Some(ms[0].1)
    } else {
        sp_get(ms.drop_first(), key)
    }
}

/// Reading of an `intensity` object: the label picks the level, the
/// forecast must be a plain integer that fits the carried width.
pub open spec fn sp_snapshot_of_node(v: JsonNode) -> Result<IntensitySnapshot, DecodeError> {
    match v {
        JsonNode::Obj(ms) => match sp_get(ms, "index"@) {
            Some(JsonNode::Str(label)) => match sp_level_of_label(label) {
                Some(level) => match sp_get(ms, "forecast"@) {
                    Some(JsonNode::UInt(n)) => if n <= u32::MAX {
                        Ok(IntensitySnapshot { level, forecast_value: n as u32 })
                    } else {
                        Err(DecodeError::ValueRange)
                    },
                    _ => Err(DecodeError::Shape),
                },
                None => Err(DecodeError::UnknownLabel),
            },
            _ => Err(DecodeError::Shape),
        },
        _ => Err(DecodeError::Shape),
    }
}

/// Reading of one forecast-window object.
pub open spec fn sp_window_of_node(v: JsonNode) -> Result<ForecastWindow, DecodeError> {
    match v {
        JsonNode::Obj(ms) => match sp_get(ms, "from"@) {
            Some(JsonNode::Str(f)) => match carbon_date_format::spec_parse(f) {
                Some(from) => match sp_get(ms, "to"@) {
                    Some(JsonNode::Str(t)) => match carbon_date_format::spec_parse(t) {
                        Some(to) => match sp_get(ms, "intensity"@) {
                            Some(iv) => match sp_snapshot_of_node(iv) {
                                Ok(snapshot) => Ok(ForecastWindow { from, to, snapshot }),
                                Err(e) => Err(e),
                            },
                            None => Err(DecodeError::Shape),
                        },
                        None => Err(DecodeError::BadTimestamp),
                    },
                    _ => Err(DecodeError::Shape),
                },
                None => Err(DecodeError::BadTimestamp),
            },
            _ => Err(DecodeError::Shape),
        },
        _ => Err(DecodeError::Shape),
    }
}

pub open spec fn sp_windows_of_nodes(vs: Seq<JsonNode>) -> Result<Seq<ForecastWindow>, DecodeError>
    decreases vs.len(),
{
    if vs.len() == 0 {
        Ok(Seq::empty())
    } else {
        match sp_window_of_node(vs[0]) {
            Err(e) => Err(e),
            Ok(w) => match sp_windows_of_nodes(vs.drop_first()) {
                Err(e) => Err(e),
                Ok(rest) => Ok(seq![w] + rest),
            },
        }
    }
}

/// Reading of one regional entry: its display name and its window list.
pub open spec fn sp_item_of_node(v: JsonNode) -> Result<DataItemV, DecodeError> {
    match v {
        JsonNode::Obj(ms) => match sp_get(ms, "shortname"@) {
            Some(JsonNode::Str(name)) => match sp_get(ms, "data"@) {
                Some(JsonNode::Arr(wns)) => match sp_windows_of_nodes(wns) {
                    Ok(windows) => Ok(DataItemV { display_name: name, windows }),
                    Err(e) => Err(e),
                },
                _ => Err(DecodeError::Shape),
            },
            _ => Err(DecodeError::Shape),
        },
        _ => Err(DecodeError::Shape),
    }
}

pub open spec fn sp_items_of_nodes(vs: Seq<JsonNode>) -> Result<Seq<DataItemV>, DecodeError>
    decreases vs.len(),
{
    if vs.len() == 0 {
        Ok(Seq::empty())
    } else {
        match sp_item_of_node(vs[0]) {
            Err(e) => Err(e),
            Ok(item) => match sp_items_of_nodes(vs.drop_first()) {
                Err(e) => Err(e),
                Ok(rest) => Ok(seq![item] + rest),
            },
        }
    }
}

/// Meaning of a whole document: the single top-level key selects the `Data`
/// or the `Error` shape; fields are never probed speculatively.
pub open spec fn sp_regional_of_node(v: JsonNode) -> Result<RegionalResultV, DecodeError> {
    match v {
        JsonNode::Obj(ms) => if ms.len() != 1 {
            Err(DecodeError::Shape)
        } else if ms[0].0 == "data"@ {
            match ms[0].1 {
                JsonNode::Arr(items) => match sp_items_of_nodes(items) {
                    Ok(is) => Ok(RegionalResultV::Data(is)),
                    Err(e) => Err(e),
                },
                _ => Err(DecodeError::Shape),
            }
        } else if ms[0].0 == "error"@ {
            match ms[0].1 {
                JsonNode::Obj(ems) => match sp_get(ems, "code"@) {
                    Some(JsonNode::Str(code)) => match sp_get(ems, "message"@) {
                        Some(JsonNode::Str(message)) => Ok(
                            RegionalResultV::Error(ProviderErrorV { code, message }),
                        ),
                        _ => Err(DecodeError::Shape),
                    },
                    _ => Err(DecodeError::Shape),
                },
                _ => Err(DecodeError::Shape),
            }
        } else {
            Err(DecodeError::Shape)
        },
        _ => Err(DecodeError::Shape),
    }
}

/// Full meaning of a payload body.
pub open spec fn sp_decode(s: Seq<char>) -> Result<RegionalResultV, DecodeError> {
    match sp_document(s) {
        None => Err(DecodeError::Syntax),
        Some(v) => sp_regional_of_node(v),
    }
}

proof fn lemma_sp_get_skip(ms: Seq<(Seq<char>, JsonNode)>, key: Seq<char>, i: int)
    requires
        0 <= i <= ms.len(),
        forall|k: int| 0 <= k < i ==> ms[k].0 != key,
    ensures
        sp_get(ms, key) == sp_get(ms.skip(i), key),
    decreases i,
{
    if i > 0 {
        lemma_sp_get_skip(ms.drop_first(), key, i - 1);
        assert(ms.drop_first().skip(i - 1) =~= ms.skip(i));
        assert(ms.skip(0) =~= ms);
    } else {
        assert(ms.skip(0) =~= ms);
    }
}

/// First member of `ms` under `key`, by scan.
fn get_member<'a>(ms: &'a Vec<(String, JsonValue)>, key: &str) -> (r: Option<&'a JsonValue>)
    ensures
        match r {
            Some(v) => sp_get(members_of(ms@), key@) == Some(node_of(*v)),
            None => sp_get(members_of(ms@), key@) is None,
        },
{
    let mut i: usize = 0;
    while i < ms.len()
        invariant
            i <= ms@.len(),
            forall|k: int| 0 <= k < i ==> members_of(ms@)[k].0 != key@,
        decreases ms@.len() - i,
    {
        let p = vec_index(ms, i);
        let (k0, v0) = p;
        if str_eq(k0.as_str(), key) {
            proof {
                lemma_sp_get_skip(members_of(ms@), key@, i as int);
                assert(members_of(ms@).skip(i as int)[0] == members_of(ms@)[i as int]);
            }
            return Some(v0);
        }
        i = i + 1;
    }
    proof {
        lemma_sp_get_skip(members_of(ms@), key@, i as int);
        assert(members_of(ms@).skip(i as int) =~= Seq::<(Seq<char>, JsonNode)>::empty());
    }
    None
}

/// Reads an `intensity` object into a snapshot.
pub fn snapshot_of_node(v: &JsonValue) -> (r: Result<IntensitySnapshot, DecodeError>)
    ensures
        r == sp_snapshot_of_node(node_of(*v)),
{
    match v {
        JsonValue::Obj(ms) => match get_member(ms, "index") {
            Some(JsonValue::Str(label)) => match Intensity::from_label(label.as_str()) {
                Some(level) => match get_member(ms, "forecast") {
                    Some(JsonValue::UInt(n)) => if *n <= u32::MAX as u64 {
                        Ok(IntensitySnapshot { level, forecast_value: *n as u32 })
                    } else {
                        Err(DecodeError::ValueRange)
                    },
                    _ => Err(DecodeError::Shape),
                },
                None => Err(DecodeError::UnknownLabel),
            },
            _ => Err(DecodeError::Shape),
        },
        _ => Err(DecodeError::Shape),
    }
}

/// Reads one forecast-window object.
pub fn window_of_node(v: &JsonValue) -> (r: Result<ForecastWindow, DecodeError>)
    ensures
        r == sp_window_of_node(node_of(*v)),
{
    match v {
        JsonValue::Obj(ms) => match get_member(ms, "from") {
            Some(JsonValue::Str(f)) => match carbon_date_format::deserialize(f.as_str()) {
                Some(from) => match get_member(ms, "to") {
                    Some(JsonValue::Str(t)) => match carbon_date_format::deserialize(t.as_str()) {
                        Some(to) => match get_member(ms, "intensity") {
                            Some(iv) => match snapshot_of_node(iv) {
                                Ok(snapshot) => Ok(ForecastWindow { from, to, snapshot }),
                                Err(e) => Err(e),
                            },
                            None => Err(DecodeError::Shape),
                        },
                        None => Err(DecodeError::BadTimestamp),
                    },
                    _ => Err(DecodeError::Shape),
                },
                None => Err(DecodeError::BadTimestamp),
            },
            _ => Err(DecodeError::Shape),
        },
        _ => Err(DecodeError::Shape),
    }
}

fn windows_from(vs: &Vec<JsonValue>, i: usize) -> (r: Result<Vec<ForecastWindow>, DecodeError>)
    requires
        i <= vs@.len(),
    ensures
        match r {
            Ok(ws) => sp_windows_of_nodes(nodes_of(vs@).skip(i as int)) == Ok::<
                Seq<ForecastWindow>,
                DecodeError,
            >(ws@),
            Err(e) => sp_windows_of_nodes(nodes_of(vs@).skip(i as int)) == Err::<
                Seq<ForecastWindow>,
                DecodeError,
            >(e),
        },
    decreases vs@.len() - i,
{
    if i == vs.len() {
        proof {
            assert(nodes_of(vs@).skip(i as int) =~= Seq::<JsonNode>::empty());
        }
        Ok(Vec::new())
    } else {
        proof {
            assert(nodes_of(vs@).skip(i as int)[0] == node_of(vs@[i as int]));
            assert(nodes_of(vs@).skip(i as int).drop_first() =~= nodes_of(vs@).skip(i as int + 1));
        }
        match window_of_node(vec_index(vs, i)) {
            Err(e) => Err(e),
            Ok(w) => match windows_from(vs, i + 1) {
                Err(e) => Err(e),
                Ok(rest) => {
                    let ghost rest_view = rest@;
                    let mut ws: Vec<ForecastWindow> = Vec::new();
                    ws.push(w);
                    let mut rest = rest;
                    ws.append(&mut rest);
                    proof {
                        assert(ws@ =~= seq![w] + rest_view);
                    }
                    Ok(ws)
                },
            },
        }
    }
}

/// Reads one regional entry.
pub fn item_of_node(v: &JsonValue) -> (r: Result<DataItem, DecodeError>)
    ensures
        match r {
            Ok(item) => sp_item_of_node(node_of(*v)) == Ok::<DataItemV, DecodeError>(item@),
            Err(e) => sp_item_of_node(node_of(*v)) == Err::<DataItemV, DecodeError>(e),
        },
{
    match v {
        JsonValue::Obj(ms) => match get_member(ms, "shortname") {
            Some(JsonValue::Str(name)) => match get_member(ms, "data") {
                Some(JsonValue::Arr(wns)) => {
                    proof {
                        assert(nodes_of(wns@).skip(0) =~= nodes_of(wns@));
                    }
                    match windows_from(wns, 0) {
                        Ok(windows) => Ok(DataItem { display_name: name.clone(), windows }),
                        Err(e) => Err(e),
                    }
                },
                _ => Err(DecodeError::Shape),
            },
            _ => Err(DecodeError::Shape),
        },
        _ => Err(DecodeError::Shape),
    }
}

fn items_from(vs: &Vec<JsonValue>, i: usize) -> (r: Result<Vec<DataItem>, DecodeError>)
    requires
        i <= vs@.len(),
    ensures
        match r {
            Ok(items) => sp_items_of_nodes(nodes_of(vs@).skip(i as int)) == Ok::<
                Seq<DataItemV>,
                DecodeError,
            >(Seq::new(items@.len(), |k: int| items@[k]@)),
            Err(e) => sp_items_of_nodes(nodes_of(vs@).skip(i as int)) == Err::<
                Seq<DataItemV>,
                DecodeError,
            >(e),
        },
    decreases vs@.len() - i,
{
    if i == vs.len() {
        proof {
            assert(nodes_of(vs@).skip(i as int) =~= Seq::<JsonNode>::empty());
        }
        let items: Vec<DataItem> = Vec::new();
        proof {
            assert(Seq::new(items@.len(), |k: int| items@[k]@) =~= Seq::<DataItemV>::empty());
        }
        Ok(items)
    } else {
        proof {
            assert(nodes_of(vs@).skip(i as int)[0] == node_of(vs@[i as int]));
            assert(nodes_of(vs@).skip(i as int).drop_first() =~= nodes_of(vs@).skip(i as int + 1));
        }
        match item_of_node(vec_index(vs, i)) {
            Err(e) => Err(e),
            Ok(item) => match items_from(vs, i + 1) {
                Err(e) => Err(e),
                Ok(rest) => {
                    let ghost rest_view = Seq::new(rest@.len(), |k: int| rest@[k]@);
                    let ghost item_view = item@;
                    let mut items: Vec<DataItem> = Vec::new();
                    items.push(item);
                    let mut rest = rest;
                    items.append(&mut rest);
                    proof {
                        assert(Seq::new(items@.len(), |k: int| items@[k]@) =~= seq![item_view]
                            + rest_view);
                    }
                    Ok(items)
                },
            },
        }
    }
}

/// Reads a whole document into a `RegionalResult`.
pub fn regional_of_node(v: &JsonValue) -> (r: Result<RegionalResult, DecodeError>)
    ensures
        match r {
            Ok(res) => sp_regional_of_node(node_of(*v)) == Ok::<RegionalResultV, DecodeError>(res@),
            Err(e) => sp_regional_of_node(node_of(*v)) == Err::<RegionalResultV, DecodeError>(e),
        },
{
    match v {
        JsonValue::Obj(ms) => {
            if ms.len() != 1 {
                return Err(DecodeError::Shape);
            }
            let p = vec_index(ms, 0);
            let (k0, v0) = p;
            proof {
                assert(members_of(ms@)[0] == (ms@[0].0@, node_of(ms@[0].1)));
            }
            if str_eq(k0.as_str(), "data") {
                match v0 {
                    JsonValue::Arr(item_nodes) => {
                        proof {
                            assert(nodes_of(item_nodes@).skip(0) =~= nodes_of(item_nodes@));
                        }
                        match items_from(item_nodes, 0) {
                            Ok(items) => {
                                let res = RegionalResult::Data(items);
                                proof {
                                    let a = res@->Data_0;
                                    let b = sp_items_of_nodes(nodes_of(item_nodes@))->Ok_0;
                                    assert(a =~= b);
                                }
                                Ok(res)
                            },
                            Err(e) => Err(e),
                        }
                    },
                    _ => Err(DecodeError::Shape),
                }
            } else if str_eq(k0.as_str(), "error") {
                match v0 {
                    JsonValue::Obj(ems) => match get_member(ems, "code") {
                        Some(JsonValue::Str(code)) => match get_member(ems, "message") {
                            Some(JsonValue::Str(message)) => Ok(
                                RegionalResult::Error(
                                    ProviderError { code: code.clone(), message: message.clone() },
                                ),
                            ),
                            _ => Err(DecodeError::Shape),
                        },
                        _ => Err(DecodeError::Shape),
                    },
                    _ => Err(DecodeError::Shape),
                }
            } else {
                Err(DecodeError::Shape)
            }
        },
        _ => Err(DecodeError::Shape),
    }
}

/// Decodes a payload body: parse, then read the document, selecting the
/// `Data` or `Error` shape by the top-level discriminant key.
pub fn decode_regional(body: &str) -> (r: Result<RegionalResult, DecodeError>)
    ensures
        match r {
            Ok(res) => sp_decode(body@) == Ok::<RegionalResultV, DecodeError>(res@),
            Err(e) => sp_decode(body@) == Err::<RegionalResultV, DecodeError>(e),
        },
{
    match parse_document(body) {
        None => Err(DecodeError::Syntax),
        Some(v) => regional_of_node(&v),
    }
}

/// The current value of a result: the first window of the first data item;
/// nothing on the `Error` shape or when either list is empty.
pub open spec fn sp_first_snapshot(r: RegionalResultV) -> Option<IntensitySnapshot> {
    match r {
        RegionalResultV::Data(items) => if items.len() > 0 && items[0].windows.len() > 0 {
            Some(items[0].windows[0].snapshot)
        } else {
            None
        },
        RegionalResultV::Error(_) => None,
    }
}

impl RegionalResult {
    /// The current value: the first window of the first data item.
    pub fn first_snapshot(&self) -> (r: Option<IntensitySnapshot>)
        ensures
            r == sp_first_snapshot(self@),
    {
        match self {
            RegionalResult::Data(items) => {
                if items.len() > 0 {
                    let item = vec_index(items, 0);
                    if item.windows.len() > 0 {
                        let w = vec_index(&item.windows, 0);
                        Some(w.snapshot)
                    } else {
                        None
                    }
                } else {
                    None
                }
            },
            RegionalResult::Error(_) => None,
        }
    }
}

/// A decoded window list reads each window from its own node, in order.
pub proof fn law_windows_decode_pointwise(ns: Seq<JsonNode>, ws: Seq<ForecastWindow>)
    requires
        sp_windows_of_nodes(ns) == Ok::<Seq<ForecastWindow>, DecodeError>(ws),
    ensures
        ws.len() == ns.len(),
        forall|j: int|
            0 <= j < ns.len() ==> sp_window_of_node(ns[j]) == Ok::<ForecastWindow, DecodeError>(
                ws[j],
            ),
    decreases ns.len(),
{
    if ns.len() > 0 {
        let rest = sp_windows_of_nodes(ns.drop_first()) ->Ok_0;
        law_windows_decode_pointwise(ns.drop_first(), rest);
        assert(forall|j: int| 0 <= j < ns.drop_first().len() ==> ns.drop_first()[j] == ns[j + 1]);
    }
}

/// A decoded item list reads each entry from its own node, in order.
pub proof fn law_items_decode_pointwise(ns: Seq<JsonNode>, items: Seq<DataItemV>)
    requires
        sp_items_of_nodes(ns) == Ok::<Seq<DataItemV>, DecodeError>(items),
    ensures
        items.len() == ns.len(),
        forall|j: int|
            0 <= j < ns.len() ==> sp_item_of_node(ns[j]) == Ok::<DataItemV, DecodeError>(items[j]),
    decreases ns.len(),
{
    if ns.len() > 0 {
        let rest = sp_items_of_nodes(ns.drop_first()) ->Ok_0;
        law_items_decode_pointwise(ns.drop_first(), rest);
        assert(forall|j: int| 0 <= j < ns.drop_first().len() ==> ns.drop_first()[j] == ns[j + 1]);
    }
}

/// On a `data` document the current value is read off the first window of
/// the first item, exactly as its fields stand in the payload.
pub proof fn law_first_snapshot_reads_payload(doc: JsonNode, items: Seq<DataItemV>)
    requires
        sp_regional_of_node(doc) == Ok::<RegionalResultV, DecodeError>(RegionalResultV::Data(items)),
        items.len() > 0,
        items[0].windows.len() > 0,
    ensures
        sp_first_snapshot(RegionalResultV::Data(items)) == Some(items[0].windows[0].snapshot),
        doc is Obj && doc->Obj_0.len() == 1 && doc->Obj_0[0].1 is Arr,
        sp_item_of_node(doc->Obj_0[0].1->Arr_0[0]) == Ok::<DataItemV, DecodeError>(items[0]),
{
    let ns = doc->Obj_0[0].1->Arr_0;
    law_items_decode_pointwise(ns, items);
}

/// An `error`-shaped document decodes to a `ProviderError` carrying the
/// provider's own code and message, verbatim.
pub proof fn law_error_shape_verbatim(
    ems: Seq<(Seq<char>, JsonNode)>,
    code: Seq<char>,
    message: Seq<char>,
)
    requires
        sp_get(ems, "code"@) == Some(JsonNode::Str(code)),
        sp_get(ems, "message"@) == Some(JsonNode::Str(message)),
    ensures
        sp_regional_of_node(JsonNode::Obj(seq![("error"@, JsonNode::Obj(ems))])) == Ok::<
            RegionalResultV,
            DecodeError,
        >(RegionalResultV::Error(ProviderErrorV { code, message })),
{
    reveal_strlit("data");
    reveal_strlit("error");
    let ms = seq![("error"@, JsonNode::Obj(ems))];
    assert(ms.len() == 1);
    assert(ms[0] == ("error"@, JsonNode::Obj(ems)));
    assert("error"@.len() == 5);
    assert("data"@.len() == 4);
    assert("error"@ != "data"@);
}

} // verus!

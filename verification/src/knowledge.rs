use vstd::prelude::*;

use crate::json::json_model;
use crate::json::json_of;
use crate::json::parse_json_value;
use crate::json::value_as_array;
use crate::json::value_as_string;
use crate::json::value_get;
use crate::json::JsonData;

verus! {

broadcast use vstd::seq_lib::group_seq_lib_default, vstd::seq::group_seq_axioms;

/// Why a knowledge load attempt failed.
#[derive(Clone, Copy, PartialEq, Eq, Structural, Debug)]
pub enum KnowledgeLoadError {
    /// The file could not be read at all.
    UnreadableFile,
    /// The text is not well-formed JSON.
    MalformedJson,
    /// The JSON is well-formed but does not fit the expected schema.
    SchemaMismatch,
}

/// The views of a sequence of owned strings.
pub open spec fn views_of_strings(v: Seq<String>) -> Seq<Seq<char>> {
    Seq::new(v.len(), |i: int| v[i]@)
}

/// Every element of the array is a JSON string.
pub open spec fn all_strings(a: Seq<JsonData>) -> bool {
    forall|i: int| 0 <= i < a.len() ==> a[i] is Str
}

/// The characters of each JSON string in the array, in order.
pub open spec fn string_items(a: Seq<JsonData>) -> Seq<Seq<char>> {
    a.map_values(|j: JsonData| j->Str_0)
}

/// The object has the named field and its value is a JSON string.
pub open spec fn obj_string_field(fields: Map<Seq<char>, JsonData>, key: Seq<char>) -> bool {
    fields.contains_key(key) && fields[key] is Str
}

/// A PII taxonomy: descriptions of categories that count as PII, and
/// descriptions of categories that do not.
pub struct PiiDocument {
    pub pii_descriptions: Vec<String>,
    pub exclude_pii_descriptions: Vec<String>,
}

pub ghost struct PiiDocumentView {
    pub pii_descriptions: Seq<Seq<char>>,
    pub exclude_pii_descriptions: Seq<Seq<char>>,
}

impl View for PiiDocument {
    type V = PiiDocumentView;

    open spec fn view(&self) -> PiiDocumentView {
        PiiDocumentView {
            pii_descriptions: views_of_strings(self.pii_descriptions@),
            exclude_pii_descriptions: views_of_strings(self.exclude_pii_descriptions@),
        }
    }
}

/// The PII schema: an object whose `pii_description` and
/// `exclude_pii_description` fields are both arrays of strings.
pub open spec fn pii_document_of(j: JsonData) -> Option<PiiDocumentView> {
    let ok = {
        &&& j is Obj
        &&& j->Obj_0.contains_key("pii_description"@)
        &&& j->Obj_0["pii_description"@] is Arr
        &&& all_strings(j->Obj_0["pii_description"@]->Arr_0)
        &&& j->Obj_0.contains_key("exclude_pii_description"@)
        &&& j->Obj_0["exclude_pii_description"@] is Arr
        &&& all_strings(j->Obj_0["exclude_pii_description"@]->Arr_0)
    };
    if ok {
        Some(
            PiiDocumentView {
                pii_descriptions: string_items(j->Obj_0["pii_description"@]->Arr_0),
                exclude_pii_descriptions: string_items(
                    j->Obj_0["exclude_pii_description"@]->Arr_0,
                ),
            },
        )
    } else {
        None
    }
}

/// Pull a whole array of strings out of a JSON value.
fn extract_string_array(v: &serde_json::Value) -> (r: Option<Vec<String>>)
    ensures
        r is Some <==> (json_model(*v) is Arr && all_strings(json_model(*v)->Arr_0)),
        r is Some ==> views_of_strings(r->0@) == string_items(json_model(*v)->Arr_0),
{
    let arr = match value_as_array(v) {
        None => {
            return None;
        },
        Some(a) => a,
    };
    let ghost m = json_model(*v)->Arr_0;
    let mut out: Vec<String> = Vec::new();
    let mut i: usize = 0;
    while i < arr.len()
        invariant
            i <= arr@.len(),
            json_model(*v) is Arr,
            m == json_model(*v)->Arr_0,
            arr@.len() == m.len(),
            forall|k: int| 0 <= k < arr@.len() ==> json_model(#[trigger] arr@[k]) == m[k],
            out@.len() == i,
            forall|k: int| 0 <= k < i ==> m[k] is Str,
            forall|k: int| 0 <= k < i ==> out@[k]@ == m[k]->Str_0,
        decreases arr@.len() - i,
    {
        match value_as_string(&arr[i]) {
            None => {
                proof {
                    assert(!(m[i as int] is Str));
                }
                return None;
            },
            Some(s) => {
                out.push(s);
            },
        }
        i += 1;
    }
    proof {
        assert(views_of_strings(out@) =~= string_items(m));
    }
    Some(out)
}

/// Pull a PII taxonomy out of a parsed JSON value.
fn extract_pii_document(v: &serde_json::Value) -> (r: Option<PiiDocument>)
    ensures
        r is Some <==> pii_document_of(json_model(*v)) is Some,
        r is Some ==> r->0@ == pii_document_of(json_model(*v))->0,
{
    let f_pii = match value_get(v, "pii_description") {
        None => {
            return None;
        },
        Some(f) => f,
    };
    let f_ex = match value_get(v, "exclude_pii_description") {
        None => {
            return None;
        },
        Some(f) => f,
    };
    let pii = match extract_string_array(f_pii) {
        None => {
            return None;
        },
        Some(xs) => xs,
    };
    let ex = match extract_string_array(f_ex) {
        None => {
            return None;
        },
        Some(xs) => xs,
    };
    let doc = PiiDocument { pii_descriptions: pii, exclude_pii_descriptions: ex };
    proof {
        assert(doc@.pii_descriptions =~= pii_document_of(json_model(*v))->0.pii_descriptions);
        assert(doc@.exclude_pii_descriptions =~= pii_document_of(
            json_model(*v),
        )->0.exclude_pii_descriptions);
    }
    Some(doc)
}

/// Each description on its own line: the text of the items joined by a
/// newline after every item.
pub open spec fn lines_of(items: Seq<Seq<char>>) -> Seq<char>
    decreases items.len(),
{
    if items.len() == 0 {
        Seq::empty()
    } else {
        items[0] + "\n"@ + lines_of(items.drop_first())
    }
}

proof fn lemma_lines_of_push(items: Seq<Seq<char>>, x: Seq<char>)
    ensures
        lines_of(items.push(x)) == lines_of(items) + x + "\n"@,
    decreases items.len(),
{
    if items.len() == 0 {
        assert(items.push(x).drop_first() =~= Seq::<Seq<char>>::empty());
        assert(items.push(x)[0] == x);
        assert(lines_of(Seq::<Seq<char>>::empty()) == Seq::<char>::empty());
        assert(lines_of(items.push(x)) == x + "\n"@ + Seq::<char>::empty());
        assert(lines_of(items.push(x)) =~= lines_of(items) + x + "\n"@);
    } else {
        lemma_lines_of_push(items.drop_first(), x);
        assert(items.push(x).drop_first() =~= items.drop_first().push(x));
        assert(items.push(x)[0] == items[0]);
        assert(lines_of(items.push(x)) == items[0] + "\n"@ + (lines_of(items.drop_first()) + x
            + "\n"@));
        vstd::seq_lib::lemma_concat_associative(
            items[0] + "\n"@,
            lines_of(items.drop_first()) + x,
            "\n"@,
        );
        vstd::seq_lib::lemma_concat_associative(
            items[0] + "\n"@,
            lines_of(items.drop_first()),
            x,
        );
        assert(lines_of(items.push(x)) =~= lines_of(items) + x + "\n"@);
    }
}

/// Append every item, each followed by a newline.
fn append_lines(s: &mut String, items: &Vec<String>)
    ensures
        final(s)@ == old(s)@ + lines_of(views_of_strings(items@)),
{
    let ghost s0 = s@;
    let ghost vs = views_of_strings(items@);
    let mut i: usize = 0;
    while i < items.len()
        invariant
            i <= items@.len(),
            vs == views_of_strings(items@),
            vs.len() == items@.len(),
            s@ == s0 + lines_of(vs.take(i as int)),
        decreases items@.len() - i,
    {
        proof {
            assert(vs.take(i as int).push(vs[i as int]) =~= vs.take(i as int + 1));
            lemma_lines_of_push(vs.take(i as int), vs[i as int]);
        }
        s.append(items[i].as_str());
        s.append("\n");
        proof {
            assert(s@ =~= s0 + lines_of(vs.take(i as int + 1)));
        }
        i += 1;
    }
    proof {
        assert(vs.take(items@.len() as int) =~= vs);
    }
}

pub open spec fn pii_header() -> Seq<char> {
    "Here is the knowledge about Category of PII (Personal Identifiable Information) :\n"@
}

pub open spec fn non_pii_header() -> Seq<char> {
    "Here is the knowledge about Category of Non-PII (Personal Identifiable Information) :\n"@
}

/// The flattened text of a PII taxonomy: the included-category header, each
/// included description on its own line, then the excluded-category header,
/// each excluded description on its own line.
pub open spec fn pii_text(d: PiiDocumentView) -> Seq<char> {
    pii_header() + lines_of(d.pii_descriptions) + non_pii_header() + lines_of(
        d.exclude_pii_descriptions,
    )
}

/// Flatten a PII taxonomy into its knowledge text.
pub fn render_pii(doc: &PiiDocument) -> (s: String)
    ensures
        s@ == pii_text(doc@),
{
    let mut s = String::new();
    s.append("Here is the knowledge about Category of PII (Personal Identifiable Information) :\n");
    append_lines(&mut s, &doc.pii_descriptions);
    s.append(
        "Here is the knowledge about Category of Non-PII (Personal Identifiable Information) :\n",
    );
    append_lines(&mut s, &doc.exclude_pii_descriptions);
    proof {
        assert(s@ =~= pii_text(doc@));
    }
    s
}

/// What loading PII knowledge from the given text must yield: a parse
/// failure, a schema failure, or the flattened text.
pub open spec fn pii_load_spec(text: Seq<char>) -> Result<Seq<char>, KnowledgeLoadError> {
    match json_of(text) {
        Option::None => Result::Err(KnowledgeLoadError::MalformedJson),
        Option::Some(j) => match pii_document_of(j) {
            Option::None => Result::Err(KnowledgeLoadError::SchemaMismatch),
            Option::Some(d) => Result::Ok(pii_text(d)),
        },
    }
}

/// Load PII knowledge from the text of a JSON document: parse, validate the
/// schema, and flatten the taxonomy into one knowledge string.
pub fn load_pii_knowledge(text: &str) -> (r: Result<String, KnowledgeLoadError>)
    ensures
        r is Ok <==> pii_load_spec(text@) is Ok,
        r is Ok ==> r->Ok_0@ == pii_load_spec(text@)->Ok_0,
        r is Err ==> r->Err_0 == pii_load_spec(text@)->Err_0,
{
    let v = match parse_json_value(text) {
        None => {
            return Err(KnowledgeLoadError::MalformedJson);
        },
        Some(v) => v,
    };
    let doc = match extract_pii_document(&v) {
        None => {
            return Err(KnowledgeLoadError::SchemaMismatch);
        },
        Some(d) => d,
    };
    Ok(render_pii(&doc))
}

/// One entry of an MQ topic catalog.
pub struct MqTopic {
    pub business_module: String,
    pub topic_name: String,
    pub publisher: String,
    pub remark: String,
}

pub ghost struct MqTopicView {
    pub business_module: Seq<char>,
    pub topic_name: Seq<char>,
    pub publisher: Seq<char>,
    pub remark: Seq<char>,
}

impl View for MqTopic {
    type V = MqTopicView;

    open spec fn view(&self) -> MqTopicView {
        MqTopicView {
            business_module: self.business_module@,
            topic_name: self.topic_name@,
            publisher: self.publisher@,
            remark: self.remark@,
        }
    }
}

/// An MQ topic catalog: three free-text sections plus the topics in their
/// original order.
pub struct MqDocument {
    pub background: String,
    pub current_state: String,
    pub technology: String,
    pub topics: Vec<MqTopic>,
}

pub ghost struct MqDocumentView {
    pub background: Seq<char>,
    pub current_state: Seq<char>,
    pub technology: Seq<char>,
    pub topics: Seq<MqTopicView>,
}

impl View for MqDocument {
    type V = MqDocumentView;

    open spec fn view(&self) -> MqDocumentView {
        MqDocumentView {
            background: self.background@,
            current_state: self.current_state@,
            technology: self.technology@,
            topics: Seq::new(self.topics@.len(), |i: int| self.topics@[i]@),
        }
    }
}

/// The topic schema: an object whose `business_module`, `topic_name`,
/// `publisher` and `remark` fields are all strings.
pub open spec fn topic_of(j: JsonData) -> Option<MqTopicView> {
    let ok = {
        &&& j is Obj
        &&& obj_string_field(j->Obj_0, "business_module"@)
        &&& obj_string_field(j->Obj_0, "topic_name"@)
        &&& obj_string_field(j->Obj_0, "publisher"@)
        &&& obj_string_field(j->Obj_0, "remark"@)
    };
    if ok {
        Some(
            MqTopicView {
                business_module: j->Obj_0["business_module"@]->Str_0,
                topic_name: j->Obj_0["topic_name"@]->Str_0,
                publisher: j->Obj_0["publisher"@]->Str_0,
                remark: j->Obj_0["remark"@]->Str_0,
            },
        )
    } else {
        None
    }
}

/// Every element of the array fits the topic schema.
pub open spec fn all_topics(a: Seq<JsonData>) -> bool {
    forall|i: int| 0 <= i < a.len() ==> topic_of(a[i]) is Some
}

/// The topics of the array, in order.
pub open spec fn topic_items(a: Seq<JsonData>) -> Seq<MqTopicView> {
    a.map_values(|j: JsonData| topic_of(j)->0)
}

/// The MQ catalog schema: an object whose `mq_data_background`,
/// `mq_data_current_state` and `mq_technology` fields are strings and whose
/// `mq_pub_sub_topics` field is an array of topic records.
pub open spec fn mq_document_of(j: JsonData) -> Option<MqDocumentView> {
    let ok = {
        &&& j is Obj
        &&& obj_string_field(j->Obj_0, "mq_data_background"@)
        &&& obj_string_field(j->Obj_0, "mq_data_current_state"@)
        &&& obj_string_field(j->Obj_0, "mq_technology"@)
        &&& j->Obj_0.contains_key("mq_pub_sub_topics"@)
        &&& j->Obj_0["mq_pub_sub_topics"@] is Arr
        &&& all_topics(j->Obj_0["mq_pub_sub_topics"@]->Arr_0)
    };
    if ok {
        Some(
            MqDocumentView {
                background: j->Obj_0["mq_data_background"@]->Str_0,
                current_state: j->Obj_0["mq_data_current_state"@]->Str_0,
                technology: j->Obj_0["mq_technology"@]->Str_0,
                topics: topic_items(j->Obj_0["mq_pub_sub_topics"@]->Arr_0),
            },
        )
    } else {
        None
    }
}

/// Pull a string field out of a JSON object value.
fn get_string_field(v: &serde_json::Value, key: &str) -> (r: Option<String>)
    ensures
        r is Some <==> (json_model(*v) is Obj && obj_string_field(json_model(*v)->Obj_0, key@)),
        r is Some ==> r->0@ == json_model(*v)->Obj_0[key@]->Str_0,
{
    match value_get(v, key) {
        None => None,
        Some(f) => value_as_string(f),
    }
}

/// Pull one topic record out of a parsed JSON value.
fn extract_topic(v: &serde_json::Value) -> (r: Option<MqTopic>)
    ensures
        r is Some <==> topic_of(json_model(*v)) is Some,
        r is Some ==> r->0@ == topic_of(json_model(*v))->0,
{
    let business_module = match get_string_field(v, "business_module") {
        None => {
            return None;
        },
        Some(s) => s,
    };
    let topic_name = match get_string_field(v, "topic_name") {
        None => {
            return None;
        },
        Some(s) => s,
    };
    let publisher = match get_string_field(v, "publisher") {
        None => {
            return None;
        },
        Some(s) => s,
    };
    let remark = match get_string_field(v, "remark") {
        None => {
            return None;
        },
        Some(s) => s,
    };
    Some(MqTopic { business_module, topic_name, publisher, remark })
}

/// Pull an MQ catalog out of a parsed JSON value.
fn extract_mq_document(v: &serde_json::Value) -> (r: Option<MqDocument>)
    ensures
        r is Some <==> mq_document_of(json_model(*v)) is Some,
        r is Some ==> r->0@ == mq_document_of(json_model(*v))->0,
{
    let background = match get_string_field(v, "mq_data_background") {
        None => {
            return None;
        },
        Some(s) => s,
    };
    let current_state = match get_string_field(v, "mq_data_current_state") {
        None => {
            return None;
        },
        Some(s) => s,
    };
    let technology = match get_string_field(v, "mq_technology") {
        None => {
            return None;
        },
        Some(s) => s,
    };
    let f_topics = match value_get(v, "mq_pub_sub_topics") {
        None => {
            return None;
        },
        Some(f) => f,
    };
    let arr = match value_as_array(f_topics) {
        None => {
            return None;
        },
        Some(a) => a,
    };
    let ghost m = json_model(*f_topics)->Arr_0;
    let mut topics: Vec<MqTopic> = Vec::new();
    let mut i: usize = 0;
    while i < arr.len()
        invariant
            i <= arr@.len(),
            json_model(*v) is Obj,
            json_model(*v)->Obj_0.contains_key("mq_pub_sub_topics"@),
            json_model(*f_topics) == json_model(*v)->Obj_0["mq_pub_sub_topics"@],
            json_model(*f_topics) is Arr,
            m == json_model(*f_topics)->Arr_0,
            arr@.len() == m.len(),
            forall|k: int| 0 <= k < arr@.len() ==> json_model(#[trigger] arr@[k]) == m[k],
            topics@.len() == i,
            forall|k: int| 0 <= k < i ==> topic_of(m[k]) is Some,
            forall|k: int| 0 <= k < i ==> topics@[k]@ == topic_of(m[k])->0,
        decreases arr@.len() - i,
    {
        match extract_topic(&arr[i]) {
            None => {
                proof {
                    assert(topic_of(m[i as int]) is None);
                }
                return None;
            },
            Some(t) => {
                topics.push(t);
            },
        }
        i += 1;
    }
    let doc = MqDocument { background, current_state, technology, topics };
    proof {
        assert(doc@.topics =~= topic_items(m));
        assert(doc@ == mq_document_of(json_model(*v))->0);
    }
    Some(doc)
}

pub open spec fn mq_background_header() -> Seq<char> {
    "Here is the knowledge about Message sync MQ Pub/Sub :\n"@
}

pub open spec fn mq_current_state_header() -> Seq<char> {
    "Here is the knowledge about Message sync MQ Pub/Sub Current State :\n"@
}

pub open spec fn mq_technology_header() -> Seq<char> {
    "Here is the knowledge about Message sync MQ Pub/Sub Technology :\n"@
}

pub open spec fn mq_topics_header() -> Seq<char> {
    "Here is the knowledge about Message sync MQ Pub/Sub Topics :\n"@
}

/// One topic rendered as four labeled lines.
pub open spec fn topic_text(t: MqTopicView) -> Seq<char> {
    "Business Module: "@ + t.business_module + "\n"@ + "Topic Name or Topic String: "@
        + t.topic_name + "\n"@ + "Publisher: "@ + t.publisher + "\n"@ + "Remark: "@ + t.remark
        + "\n"@
}

/// All topics rendered in their original order.
pub open spec fn topics_text(ts: Seq<MqTopicView>) -> Seq<char>
    decreases ts.len(),
{
    if ts.len() == 0 {
        Seq::empty()
    } else {
        topic_text(ts[0]) + topics_text(ts.drop_first())
    }
}

proof fn lemma_topics_text_push(ts: Seq<MqTopicView>, t: MqTopicView)
    ensures
        topics_text(ts.push(t)) == topics_text(ts) + topic_text(t),
    decreases ts.len(),
{
    if ts.len() == 0 {
        assert(ts.push(t).drop_first() =~= Seq::<MqTopicView>::empty());
        assert(ts.push(t)[0] == t);
        assert(topics_text(Seq::<MqTopicView>::empty()) == Seq::<char>::empty());
        assert(topics_text(ts.push(t)) == topic_text(t) + Seq::<char>::empty());
        assert(topics_text(ts.push(t)) =~= topics_text(ts) + topic_text(t));
    } else {
        lemma_topics_text_push(ts.drop_first(), t);
        assert(ts.push(t).drop_first() =~= ts.drop_first().push(t));
        assert(ts.push(t)[0] == ts[0]);
        assert(topics_text(ts.push(t)) == topic_text(ts[0]) + (topics_text(ts.drop_first())
            + topic_text(t)));
        vstd::seq_lib::lemma_concat_associative(
            topic_text(ts[0]),
            topics_text(ts.drop_first()),
            topic_text(t),
        );
        assert(topics_text(ts.push(t)) =~= topics_text(ts) + topic_text(t));
    }
}

/// The flattened text of an MQ catalog: the three labeled sections, then the
/// topics section with each topic as four labeled lines, and a trailing blank
/// line after the last topic.
pub open spec fn mq_text(d: MqDocumentView) -> Seq<char> {
    mq_background_header() + d.background + "\n"@ + mq_current_state_header() + d.current_state
        + "\n"@ + mq_technology_header() + d.technology + "\n"@ + mq_topics_header() + topics_text(
        d.topics,
    ) + "\n"@
}

/// Append one topic as its four labeled lines.
fn append_topic(s: &mut String, t: &MqTopic)
    ensures
        final(s)@ == old(s)@ + topic_text(t@),
{
    s.append("Business Module: ");
    s.append(t.business_module.as_str());
    s.append("\n");
    s.append("Topic Name or Topic String: ");
    s.append(t.topic_name.as_str());
    s.append("\n");
    s.append("Publisher: ");
    s.append(t.publisher.as_str());
    s.append("\n");
    s.append("Remark: ");
    s.append(t.remark.as_str());
    s.append("\n");
    proof {
        assert(s@ =~= old(s)@ + topic_text(t@));
    }
}

/// Flatten an MQ catalog into its knowledge text.
pub fn render_mq(doc: &MqDocument) -> (s: String)
    ensures
        s@ == mq_text(doc@),
{
    let mut s = String::new();
    s.append("Here is the knowledge about Message sync MQ Pub/Sub :\n");
    s.append(doc.background.as_str());
    s.append("\n");
    s.append("Here is the knowledge about Message sync MQ Pub/Sub Current State :\n");
    s.append(doc.current_state.as_str());
    s.append("\n");
    s.append("Here is the knowledge about Message sync MQ Pub/Sub Technology :\n");
    s.append(doc.technology.as_str());
    s.append("\n");
    s.append("Here is the knowledge about Message sync MQ Pub/Sub Topics :\n");
    let ghost mid = s@;
    let ghost ts = doc@.topics;
    let mut i: usize = 0;
    while i < doc.topics.len()
        invariant
            i <= doc.topics@.len(),
            ts == doc@.topics,
            ts.len() == doc.topics@.len(),
            forall|k: int| 0 <= k < doc.topics@.len() ==> ts[k] == doc.topics@[k]@,
            s@ == mid + topics_text(ts.take(i as int)),
        decreases doc.topics@.len() - i,
    {
        proof {
            assert(ts.take(i as int).push(ts[i as int]) =~= ts.take(i as int + 1));
            lemma_topics_text_push(ts.take(i as int), ts[i as int]);
        }
        append_topic(&mut s, &doc.topics[i]);
        proof {
            assert(s@ =~= mid + topics_text(ts.take(i as int + 1)));
        }
        i += 1;
    }
    proof {
        assert(ts.take(doc.topics@.len() as int) =~= ts);
    }
    s.append("\n");
    proof {
        assert(s@ =~= mq_text(doc@));
    }
    s
}

/// What loading MQ knowledge from the given text must yield: a parse
/// failure, a schema failure, or the flattened text.
pub open spec fn mq_load_spec(text: Seq<char>) -> Result<Seq<char>, KnowledgeLoadError> {
    match json_of(text) {
        Option::None => Result::Err(KnowledgeLoadError::MalformedJson),
        Option::Some(j) => match mq_document_of(j) {
            Option::None => Result::Err(KnowledgeLoadError::SchemaMismatch),
            Option::Some(d) => Result::Ok(mq_text(d)),
        },
    }
}

/// Load MQ knowledge from the text of a JSON document: parse, validate the
/// schema, and flatten the catalog into one knowledge string.
pub fn load_mq_knowledge(text: &str) -> (r: Result<String, KnowledgeLoadError>)
    ensures
        r is Ok <==> mq_load_spec(text@) is Ok,
        r is Ok ==> r->Ok_0@ == mq_load_spec(text@)->Ok_0,
        r is Err ==> r->Err_0 == mq_load_spec(text@)->Err_0,
{
    let v = match parse_json_value(text) {
        None => {
            return Err(KnowledgeLoadError::MalformedJson);
        },
        Some(v) => v,
    };
    let doc = match extract_mq_document(&v) {
        None => {
            return Err(KnowledgeLoadError::SchemaMismatch);
        },
        Some(d) => d,
    };
    Ok(render_mq(&doc))
}

/// The one knowledge string currently steering answers, possibly empty.
/// Re-selecting a source replaces it wholesale; it is never merged.
pub struct ActiveKnowledge {
    text: String,
}

impl View for ActiveKnowledge {
    type V = Seq<char>;

    closed spec fn view(&self) -> Seq<char> {
        self.text@
    }
}

impl ActiveKnowledge {
    /// At startup no knowledge is active.
    pub fn new() -> (k: ActiveKnowledge)
        ensures
            k@ == Seq::<char>::empty(),
    {
        ActiveKnowledge { text: String::new() }
    }

    /// Replace the active knowledge wholesale: the old text does not survive
    /// in any form.
    pub fn replace(&mut self, text: String)
        ensures
            final(self)@ == text@,
    {
        self.text = text;
    }

    /// The current knowledge text.
    pub fn text(&self) -> (t: &String)
        ensures
            t@ == self@,
    {
        &self.text
    }

    pub fn is_empty(&self) -> (b: bool)
        ensures
            b == (self@.len() == 0),
    {
        self.text.as_str().is_empty()
    }
}

} // verus!

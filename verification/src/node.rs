//! Workflow nodes and their JSON form.
//!
//! A node travels as one flat JSON object. The member `kind` selects the
//! variant; every other member is required or optional as the variant says,
//! and a member of the wrong JSON type makes the whole object unreadable.

use crate::json::{
    flag_document, flag_of, items_of, json_fields, json_model, json_models, list_document, member,
    no_fields, object_document, put_field, text_document, text_of, Fields, Json,
};
use crate::text::{same_text, text_view, texts_view};
use vstd::prelude::*;

verus! {

/// How a node takes part in branching: what sets it off, where control goes
/// next, and how it relates to the branch it belongs to.
pub struct Branching {
    pub trigger: String,
    pub next_process: Option<String>,
    pub wait_for_branch: bool,
    pub creates_branch: bool,
    pub branch_step: Option<String>,
}

/// What a node asks for.
pub enum NodeContent {
    Prompt { system: Option<String>, prompt: String },
    Conditional { branching: Branching },
    Command { command: String },
    Process { steps: Vec<String>, branching: Branching },
}

/// A unit of workflow: an identifier, where one has been assigned, and the
/// work itself.
pub struct Node {
    pub id: Option<String>,
    pub content: NodeContent,
}

pub struct BranchingView {
    pub trigger: Seq<char>,
    pub next_process: Option<Seq<char>>,
    pub wait_for_branch: bool,
    pub creates_branch: bool,
    pub branch_step: Option<Seq<char>>,
}

pub enum NodeContentView {
    Prompt { system: Option<Seq<char>>, prompt: Seq<char> },
    Conditional { branching: BranchingView },
    Command { command: Seq<char> },
    Process { steps: Seq<Seq<char>>, branching: BranchingView },
}

pub struct NodeView {
    pub id: Option<Seq<char>>,
    pub content: NodeContentView,
}

impl View for Branching {
    type V = BranchingView;

    open spec fn view(&self) -> BranchingView {
        BranchingView {
            trigger: self.trigger@,
            next_process: text_view(self.next_process),
            wait_for_branch: self.wait_for_branch,
            creates_branch: self.creates_branch,
            branch_step: text_view(self.branch_step),
        }
    }
}

impl View for NodeContent {
    type V = NodeContentView;

    open spec fn view(&self) -> NodeContentView {
        match self {
            NodeContent::Prompt { system, prompt } => NodeContentView::Prompt {
                system: text_view(*system),
                prompt: prompt@,
            },
            NodeContent::Conditional { branching } => NodeContentView::Conditional {
                branching: branching@,
            },
            NodeContent::Command { command } => NodeContentView::Command { command: command@ },
            NodeContent::Process { steps, branching } => NodeContentView::Process {
                steps: texts_view(steps@),
                branching: branching@,
            },
        }
    }
}

impl View for Node {
    type V = NodeView;

    open spec fn view(&self) -> NodeView {
        NodeView { id: text_view(self.id), content: self.content@ }
    }
}

/// The string stored under `key`; nothing where the member is missing or is
/// no string.
pub open spec fn required_text(doc: Json, key: Seq<char>) -> Option<Seq<char>> {
    match doc.field(key) {
        Some(inner) => inner.text(),
        None => None,
    }
}

/// The boolean stored under `key`; nothing where the member is missing or is
/// no boolean.
pub open spec fn required_flag(doc: Json, key: Seq<char>) -> Option<bool> {
    match doc.field(key) {
        Some(inner) => inner.flag(),
        None => None,
    }
}

/// The string that may be stored under `key`: `Some(None)` where the member
/// is missing, and nothing at all where it is there but is no string.
pub open spec fn optional_text(doc: Json, key: Seq<char>) -> Option<Option<Seq<char>>> {
    match doc.field(key) {
        Some(inner) => match inner.text() {
            Some(chars) => Some(Some(chars)),
            None => None,
        },
        None => Some(None),
    }
}

/// The strings of an array whose elements are all strings.
pub open spec fn all_texts(items: Seq<Json>) -> Option<Seq<Seq<char>>> {
    if forall|i: int| 0 <= i < items.len() ==> (#[trigger] items[i]) is Text {
        Some(items.map_values(|item: Json| item->Text_0))
    } else {
        None
    }
}

/// The array of strings stored under `key`.
pub open spec fn required_texts(doc: Json, key: Seq<char>) -> Option<Seq<Seq<char>>> {
    match doc.field(key) {
        Some(inner) => match inner.items() {
            Some(items) => all_texts(items),
            None => None,
        },
        None => None,
    }
}

/// The branching members of an object.
pub open spec fn decode_branching(doc: Json) -> Option<BranchingView> {
    match (
        required_text(doc, "trigger"@),
        optional_text(doc, "next_process"@),
        required_flag(doc, "wait_for_branch"@),
        required_flag(doc, "creates_branch"@),
        optional_text(doc, "branch_step"@),
    ) {
        (
            Some(trigger),
            Some(next_process),
            Some(wait_for_branch),
            Some(creates_branch),
            Some(branch_step),
        ) => Some(
            BranchingView { trigger, next_process, wait_for_branch, creates_branch, branch_step },
        ),
        _ => None,
    }
}

/// The work that an object of the given kind describes.
pub open spec fn decode_content(doc: Json, kind: Seq<char>) -> Option<NodeContentView> {
    if kind == "Prompt"@ {
        match (optional_text(doc, "system"@), required_text(doc, "prompt"@)) {
            (Some(system), Some(prompt)) => Some(NodeContentView::Prompt { system, prompt }),
            _ => None,
        }
    } else if kind == "Command"@ {
        match required_text(doc, "command"@) {
            Some(command) => Some(NodeContentView::Command { command }),
            None => None,
        }
    } else if kind == "Conditional"@ {
        match decode_branching(doc) {
            Some(branching) => Some(NodeContentView::Conditional { branching }),
            None => None,
        }
    } else if kind == "Process"@ {
        match (required_texts(doc, "steps"@), decode_branching(doc)) {
            (Some(steps), Some(branching)) => Some(NodeContentView::Process { steps, branching }),
            _ => None,
        }
    } else {
        None
    }
}

/// The node that a JSON document describes, if it describes one.
pub open spec fn decode_node(doc: Json) -> Option<NodeView> {
    match (optional_text(doc, "_id"@), required_text(doc, "kind"@)) {
        (Some(id), Some(kind)) => match decode_content(doc, kind) {
            Some(content) => Some(NodeView { id, content }),
            None => None,
        },
        _ => None,
    }
}

/// The name under which a variant travels.
pub open spec fn kind_name(content: NodeContentView) -> Seq<char> {
    match content {
        NodeContentView::Prompt { .. } => "Prompt"@,
        NodeContentView::Conditional { .. } => "Conditional"@,
        NodeContentView::Command { .. } => "Command"@,
        NodeContentView::Process { .. } => "Process"@,
    }
}

/// The members with an optional string added: nothing is added for `None`.
pub open spec fn with_optional(fields: Fields, key: Seq<char>, text: Option<Seq<char>>) -> Fields {
    match text {
        Some(chars) => fields.with(key, Json::Text(chars)),
        None => fields,
    }
}

/// The members with the branching members added.
pub open spec fn with_branching(fields: Fields, branching: BranchingView) -> Fields {
    let fields = fields.with("trigger"@, Json::Text(branching.trigger));
    let fields = with_optional(fields, "next_process"@, branching.next_process);
    let fields = fields.with("wait_for_branch"@, Json::Flag(branching.wait_for_branch));
    let fields = fields.with("creates_branch"@, Json::Flag(branching.creates_branch));
    with_optional(fields, "branch_step"@, branching.branch_step)
}

/// The members with those of a variant added.
pub open spec fn with_content(fields: Fields, content: NodeContentView) -> Fields {
    match content {
        NodeContentView::Prompt { system, prompt } => with_optional(
            fields,
            "system"@,
            system,
        ).with("prompt"@, Json::Text(prompt)),
        NodeContentView::Conditional { branching } => with_branching(fields, branching),
        NodeContentView::Command { command } => fields.with("command"@, Json::Text(command)),
        NodeContentView::Process { steps, branching } => with_branching(
            fields.with("steps"@, Json::List(steps.map_values(|step: Seq<char>| Json::Text(step)))),
            branching,
        ),
    }
}

/// The members of the object that stands for a node.
pub open spec fn node_fields(node: NodeView) -> Fields {
    let fields = with_optional(Fields::empty(), "_id"@, node.id);
    let fields = fields.with("kind"@, Json::Text(kind_name(node.content)));
    with_content(fields, node.content)
}

/// The JSON document that stands for a node.
pub open spec fn node_document(node: NodeView) -> Json {
    Json::Object(node_fields(node))
}

/// Reads the string stored under `key`.
pub fn read_required_text(doc: &serde_json::Value, key: &str) -> (found: Option<String>)
    ensures
        text_view(found) == required_text(json_model(*doc), key@),
{
    match member(doc, key) {
        Some(inner) => match text_of(inner) {
            Some(chars) => Some(chars.to_owned()),
            None => None,
        },
        None => None,
    }
}

/// Reads the boolean stored under `key`.
pub fn read_required_flag(doc: &serde_json::Value, key: &str) -> (found: Option<bool>)
    ensures
        found == required_flag(json_model(*doc), key@),
{
    match member(doc, key) {
        Some(inner) => flag_of(inner),
        None => None,
    }
}

/// Reads the string that may be stored under `key`.
pub fn read_optional_text(doc: &serde_json::Value, key: &str) -> (found: Option<Option<String>>)
    ensures
        match found {
            Some(text) => optional_text(json_model(*doc), key@) == Some(text_view(text)),
            None => optional_text(json_model(*doc), key@) is None,
        },
{
    match member(doc, key) {
        Some(inner) => match text_of(inner) {
            Some(chars) => Some(Some(chars.to_owned())),
            None => None,
        },
        None => Some(None),
    }
}

/// Reads the array of strings stored under `key`.
pub fn read_required_texts(doc: &serde_json::Value, key: &str) -> (found: Option<Vec<String>>)
    ensures
        match found {
            Some(texts) => required_texts(json_model(*doc), key@) == Some(texts_view(texts@)),
            None => required_texts(json_model(*doc), key@) is None,
        },
{
    let inner = match member(doc, key) {
        Some(inner) => inner,
        None => {
            return None;
        },
    };
    let items = match items_of(inner) {
        Some(items) => items,
        None => {
            return None;
        },
    };
    let ghost models = json_models(items@);
    let mut texts: Vec<String> = Vec::new();
    let mut i: usize = 0;
    while i < items.len()
        invariant
            i <= items.len(),
            texts@.len() == i,
            models == json_models(items@),
            required_texts(json_model(*doc), key@) == all_texts(models),
            forall|j: int| 0 <= j < i ==> (#[trigger] models[j]) is Text,
            forall|j: int| 0 <= j < i ==> (#[trigger] texts@[j])@ == models[j]->Text_0,
        decreases items.len() - i,
    {
        assert(models[i as int] == json_model(items@[i as int]));
        match text_of(&items[i]) {
            Some(chars) => {
                texts.push(chars.to_owned());
            },
            None => {
                assert(!(models[i as int] is Text));
                return None;
            },
        }
        i += 1;
    }
    assert(texts_view(texts@) =~= all_texts(models).unwrap());
    Some(texts)
}

/// Reads the branching members of an object.
pub fn read_branching(doc: &serde_json::Value) -> (found: Option<Branching>)
    ensures
        match found {
            Some(branching) => decode_branching(json_model(*doc)) == Some(branching@),
            None => decode_branching(json_model(*doc)) is None,
        },
{
    let trigger = match read_required_text(doc, "trigger") {
        Some(trigger) => trigger,
        None => {
            return None;
        },
    };
    let next_process = match read_optional_text(doc, "next_process") {
        Some(next_process) => next_process,
        None => {
            return None;
        },
    };
    let wait_for_branch = match read_required_flag(doc, "wait_for_branch") {
        Some(flag) => flag,
        None => {
            return None;
        },
    };
    let creates_branch = match read_required_flag(doc, "creates_branch") {
        Some(flag) => flag,
        None => {
            return None;
        },
    };
    let branch_step = match read_optional_text(doc, "branch_step") {
        Some(branch_step) => branch_step,
        None => {
            return None;
        },
    };
    Some(Branching { trigger, next_process, wait_for_branch, creates_branch, branch_step })
}

/// Reads the work that an object of the given kind describes.
pub fn read_content(doc: &serde_json::Value, kind: &str) -> (found: Option<NodeContent>)
    ensures
        match found {
            Some(content) => decode_content(json_model(*doc), kind@) == Some(content@),
            None => decode_content(json_model(*doc), kind@) is None,
        },
{
    if same_text(kind, "Prompt") {
        let system = match read_optional_text(doc, "system") {
            Some(system) => system,
            None => {
                return None;
            },
        };
        match read_required_text(doc, "prompt") {
            Some(prompt) => Some(NodeContent::Prompt { system, prompt }),
            None => None,
        }
    } else if same_text(kind, "Command") {
        match read_required_text(doc, "command") {
            Some(command) => Some(NodeContent::Command { command }),
            None => None,
        }
    } else if same_text(kind, "Conditional") {
        match read_branching(doc) {
            Some(branching) => Some(NodeContent::Conditional { branching }),
            None => None,
        }
    } else if same_text(kind, "Process") {
        let steps = match read_required_texts(doc, "steps") {
            Some(steps) => steps,
            None => {
                return None;
            },
        };
        match read_branching(doc) {
            Some(branching) => Some(NodeContent::Process { steps, branching }),
            None => None,
        }
    } else {
        None
    }
}

/// Stores a string under `key`.
pub fn write_text(
    fields: &mut serde_json::Map<String, serde_json::Value>,
    key: &str,
    text: &String,
)
    ensures
        json_fields(*final(fields)) == json_fields(*old(fields)).with(key@, Json::Text(text@)),
{
    put_field(fields, key.to_owned(), text_document(text.clone()));
}

/// Stores a boolean under `key`.
pub fn write_flag(fields: &mut serde_json::Map<String, serde_json::Value>, key: &str, flag: bool)
    ensures
        json_fields(*final(fields)) == json_fields(*old(fields)).with(key@, Json::Flag(flag)),
{
    put_field(fields, key.to_owned(), flag_document(flag));
}

/// Stores a string under `key` where there is one.
pub fn write_optional_text(
    fields: &mut serde_json::Map<String, serde_json::Value>,
    key: &str,
    text: &Option<String>,
)
    ensures
        json_fields(*final(fields)) == with_optional(
            json_fields(*old(fields)),
            key@,
            text_view(*text),
        ),
{
    match text {
        Some(chars) => {
            write_text(fields, key, chars);
        },
        None => {},
    }
}

/// Stores an array of strings under `key`.
pub fn write_texts(
    fields: &mut serde_json::Map<String, serde_json::Value>,
    key: &str,
    texts: &Vec<String>,
)
    ensures
        json_fields(*final(fields)) == json_fields(*old(fields)).with(
            key@,
            Json::List(texts_view(texts@).map_values(|step: Seq<char>| Json::Text(step))),
        ),
{
    let mut docs: Vec<serde_json::Value> = Vec::new();
    let mut i: usize = 0;
    while i < texts.len()
        invariant
            i <= texts.len(),
            docs@.len() == i,
            forall|j: int| 0 <= j < i ==> json_model(#[trigger] docs@[j]) == Json::Text(texts@[j]@),
        decreases texts.len() - i,
    {
        docs.push(text_document(texts[i].clone()));
        i += 1;
    }
    assert(json_models(docs@) =~= texts_view(texts@).map_values(
        |step: Seq<char>| Json::Text(step),
    ));
    put_field(fields, key.to_owned(), list_document(docs));
}

/// Stores the branching members.
pub fn write_branching(
    fields: &mut serde_json::Map<String, serde_json::Value>,
    branching: &Branching,
)
    ensures
        json_fields(*final(fields)) == with_branching(json_fields(*old(fields)), branching@),
{
    write_text(fields, "trigger", &branching.trigger);
    write_optional_text(fields, "next_process", &branching.next_process);
    write_flag(fields, "wait_for_branch", branching.wait_for_branch);
    write_flag(fields, "creates_branch", branching.creates_branch);
    write_optional_text(fields, "branch_step", &branching.branch_step);
}

impl NodeContent {
    /// The name under which the variant travels.
    pub fn kind(&self) -> (name: String)
        ensures
            name@ == kind_name(self@),
    {
        match self {
            NodeContent::Prompt { .. } => "Prompt".to_owned(),
            NodeContent::Conditional { .. } => "Conditional".to_owned(),
            NodeContent::Command { .. } => "Command".to_owned(),
            NodeContent::Process { .. } => "Process".to_owned(),
        }
    }

    /// Stores the members of the variant.
    pub fn write(&self, fields: &mut serde_json::Map<String, serde_json::Value>)
        ensures
            json_fields(*final(fields)) == with_content(json_fields(*old(fields)), self@),
    {
        match self {
            NodeContent::Prompt { system, prompt } => {
                write_optional_text(fields, "system", system);
                write_text(fields, "prompt", prompt);
            },
            NodeContent::Conditional { branching } => {
                write_branching(fields, branching);
            },
            NodeContent::Command { command } => {
                write_text(fields, "command", command);
            },
            NodeContent::Process { steps, branching } => {
                write_texts(fields, "steps", steps);
                write_branching(fields, branching);
            },
        }
    }
}

impl Node {
    /// The node that a JSON document describes: `None` exactly where the
    /// document describes none.
    pub fn from_document(doc: &serde_json::Value) -> (found: Option<Node>)
        ensures
            match found {
                Some(node) => decode_node(json_model(*doc)) == Some(node@),
                None => decode_node(json_model(*doc)) is None,
            },
    {
        let id = match read_optional_text(doc, "_id") {
            Some(id) => id,
            None => {
                return None;
            },
        };
        let kind = match read_required_text(doc, "kind") {
            Some(kind) => kind,
            None => {
                return None;
            },
        };
        match read_content(doc, kind.as_str()) {
            Some(content) => Some(Node { id, content }),
            None => None,
        }
    }

    /// The JSON document that stands for the node.
    pub fn to_document(&self) -> (doc: serde_json::Value)
        ensures
            json_model(doc) == node_document(self@),
    {
        let mut fields = no_fields();
        write_optional_text(&mut fields, "_id", &self.id);
        let kind = self.content.kind();
        write_text(&mut fields, "kind", &kind);
        self.content.write(&mut fields);
        object_document(fields)
    }
}

/// The keys and kind names of the wire form, character by character.
proof fn reveal_wire_names()
    ensures
        "_id"@ == seq!['_', 'i', 'd'],
        "kind"@ == seq!['k', 'i', 'n', 'd'],
        "system"@ == seq!['s', 'y', 's', 't', 'e', 'm'],
        "prompt"@ == seq!['p', 'r', 'o', 'm', 'p', 't'],
        "command"@ == seq!['c', 'o', 'm', 'm', 'a', 'n', 'd'],
        "steps"@ == seq!['s', 't', 'e', 'p', 's'],
        "trigger"@ == seq!['t', 'r', 'i', 'g', 'g', 'e', 'r'],
        "next_process"@.len() == 12,
        "next_process"@[0] == 'n',
        "wait_for_branch"@.len() == 15,
        "wait_for_branch"@[0] == 'w',
        "creates_branch"@.len() == 14,
        "branch_step"@.len() == 11,
        "Prompt"@ == seq!['P', 'r', 'o', 'm', 'p', 't'],
        "Command"@.len() == 7,
        "Command"@[1] == 'o',
        "Conditional"@.len() == 11,
        "Process"@.len() == 7,
        "Process"@[1] == 'r',
{
    reveal_strlit("_id");
    reveal_strlit("kind");
    reveal_strlit("system");
    reveal_strlit("prompt");
    reveal_strlit("command");
    reveal_strlit("steps");
    reveal_strlit("trigger");
    reveal_strlit("next_process");
    reveal_strlit("wait_for_branch");
    reveal_strlit("creates_branch");
    reveal_strlit("branch_step");
    reveal_strlit("Prompt");
    reveal_strlit("Command");
    reveal_strlit("Conditional");
    reveal_strlit("Process");
    assert("_id"@ =~= seq!['_', 'i', 'd']);
    assert("kind"@ =~= seq!['k', 'i', 'n', 'd']);
    assert("system"@ =~= seq!['s', 'y', 's', 't', 'e', 'm']);
    assert("prompt"@ =~= seq!['p', 'r', 'o', 'm', 'p', 't']);
    assert("command"@ =~= seq!['c', 'o', 'm', 'm', 'a', 'n', 'd']);
    assert("steps"@ =~= seq!['s', 't', 'e', 'p', 's']);
    assert("trigger"@ =~= seq!['t', 'r', 'i', 'g', 'g', 'e', 'r']);
    assert("Prompt"@ =~= seq!['P', 'r', 'o', 'm', 'p', 't']);
}

/// Reading back the members that `with_branching` adds gives the branching
/// data, whatever members were there before under other keys.
proof fn lemma_branching_round_trip(fields: Fields, branching: BranchingView)
    requires
        !fields.members.contains_key("trigger"@),
        !fields.members.contains_key("next_process"@),
        !fields.members.contains_key("wait_for_branch"@),
        !fields.members.contains_key("creates_branch"@),
        !fields.members.contains_key("branch_step"@),
    ensures
        decode_branching(Json::Object(with_branching(fields, branching))) == Some(branching),
        forall|key: Seq<char>|
            key != "trigger"@ && key != "next_process"@ && key != "wait_for_branch"@ && key
                != "creates_branch"@ && key != "branch_step"@ ==> (#[trigger] with_branching(
                fields,
                branching,
            ).members.contains_key(key) == fields.members.contains_key(key)) && (
            fields.members.contains_key(key) ==> with_branching(fields, branching).members[key]
                == fields.members[key]),
{
    reveal_wire_names();
}

/// Reading back the document that stands for a node gives that node.
pub proof fn lemma_node_round_trip(node: NodeView)
    ensures
        decode_node(node_document(node)) == Some(node),
{
    reveal_wire_names();
    let base = with_optional(Fields::empty(), "_id"@, node.id).with(
        "kind"@,
        Json::Text(kind_name(node.content)),
    );
    match node.content {
        NodeContentView::Prompt { system, prompt } => {},
        NodeContentView::Command { command } => {},
        NodeContentView::Conditional { branching } => {
            lemma_branching_round_trip(base, branching);
        },
        NodeContentView::Process { steps, branching } => {
            let items = steps.map_values(|step: Seq<char>| Json::Text(step));
            let with_steps = base.with("steps"@, Json::List(items));
            lemma_branching_round_trip(with_steps, branching);
            assert(all_texts(items) == Some(steps)) by {
                assert(items.map_values(|item: Json| item->Text_0) =~= steps);
            }
        },
    }
}

} // verus!

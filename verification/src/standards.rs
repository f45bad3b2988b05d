//! The standards backend: a process that speaks JSON-RPC line by line.

use vstd::prelude::*;

use crate::error::KnowledgeError;
use crate::evidence::{
    bits_are_finite, content_fits, evidence_views, is_optional_bounded, BackendEvidenceSet,
    Evidence, EvidenceId, EvidenceMetadata, EvidenceSource, EvidenceView, NativeScore,
    NativeScoreSystem, MAX_EVIDENCE_ID_BYTES,
};
use crate::json::{
    copy_value, given_members, json_at, keys_differ, make_leaf, make_object, member_of, open_value,
    parse_json, parse_json_bytes, parsed_json, parsed_json_bytes, value_at, value_json, write_json,
    written_json, JsonLeaf, JsonModel, JsonNode,
};
use crate::knowledge::{
    required_version, KnowledgeRequest, MAX_MCP_RESPONSE_BYTES, MAX_RESULTS,
    MAX_SAFE_METADATA_BYTES,
};
use crate::metadata::KnowledgeBackendId;
use crate::text::{
    bounded_text, byte_len, decimal, decimal_text, join, joined, quoted, quoted_text, str_equal,
    texts, truncate_utf8, truncated, utf8_len,
};

verus! {

pub const MAX_PROTOCOL_MESSAGES: usize = 32;

pub const MAX_PROCESS_ENTRIES: usize = 16;

pub const MAX_PROCESS_TEXT_BYTES: usize = 4096;

/// The backend that this module speaks to.
pub open spec fn standards_backend() -> KnowledgeBackendId {
    KnowledgeBackendId::StandardsMcp
}

#[derive(Clone, Copy, Debug, PartialEq, Eq, Structural)]
pub enum StandardsMcpConfigError {
    InvalidProcessConfig,
}

/// How the process is started. The values of its environment are not for logs.
#[derive(Clone)]
pub struct StandardsMcpConfig {
    executable: String,
    arguments: Vec<String>,
    environment: Vec<(String, String)>,
}

pub open spec fn short(text: String) -> bool {
    utf8_len(text@) <= MAX_PROCESS_TEXT_BYTES
}

/// The executable is named by an absolute path, and there is not too much of anything.
pub open spec fn process_fits(
    executable: Seq<char>,
    arguments: Seq<String>,
    environment: Seq<(String, String)>,
) -> bool {
    &&& executable.len() > 0 && executable[0] == '/'
    &&& arguments.len() <= MAX_PROCESS_ENTRIES
    &&& environment.len() <= MAX_PROCESS_ENTRIES
    &&& forall|i: int| 0 <= i < arguments.len() ==> short(#[trigger] arguments[i])
    &&& forall|i: int|
        0 <= i < environment.len() ==> short((#[trigger] environment[i]).0) && short(
            environment[i].1,
        )
}

/// The keys of an environment, each in quotation marks.
pub open spec fn quoted_keys(environment: Seq<(String, String)>) -> Seq<Seq<char>> {
    Seq::new(environment.len(), |i: int| quoted_text(environment[i].0@))
}

impl StandardsMcpConfig {
    pub closed spec fn program(self) -> Seq<char> {
        self.executable@
    }

    pub closed spec fn given_arguments(self) -> Seq<String> {
        self.arguments@
    }

    pub closed spec fn given_environment(self) -> Seq<(String, String)> {
        self.environment@
    }

    pub fn new(executable: String, arguments: Vec<String>, environment: Vec<(String, String)>)
        -> (r: Result<Self, StandardsMcpConfigError>)
        ensures
            match r {
                Ok(config) => {
                    &&& process_fits(executable@, arguments@, environment@)
                    &&& config.program() == executable@
                    &&& config.given_arguments() == arguments@
                    &&& config.given_environment() == environment@
                },
                Err(error) => {
                    &&& error == StandardsMcpConfigError::InvalidProcessConfig
                    &&& !process_fits(executable@, arguments@, environment@)
                },
            },
    {
        if executable.as_str().is_empty() || executable.as_str().get_char(0) != '/'
            || arguments.len() > MAX_PROCESS_ENTRIES || environment.len() > MAX_PROCESS_ENTRIES {
            return Err(StandardsMcpConfigError::InvalidProcessConfig);
        }
        let mut i: usize = 0;
        while i < arguments.len()
            invariant
                i <= arguments.len(),
                forall|j: int| 0 <= j < i ==> short(#[trigger] arguments@[j]),
            decreases arguments.len() - i,
        {
            if byte_len(arguments[i].as_str()) > MAX_PROCESS_TEXT_BYTES {
                assert(!short(arguments@[i as int]));
                return Err(StandardsMcpConfigError::InvalidProcessConfig);
            }
            i = i + 1;
        }
        let mut k: usize = 0;
        while k < environment.len()
            invariant
                k <= environment.len(),
                forall|j: int|
                    0 <= j < k ==> short((#[trigger] environment@[j]).0) && short(
                        environment@[j].1,
                    ),
            decreases environment.len() - k,
        {
            if byte_len(environment[k].0.as_str()) > MAX_PROCESS_TEXT_BYTES || byte_len(
                environment[k].1.as_str(),
            ) > MAX_PROCESS_TEXT_BYTES {
                assert(!(short(environment@[k as int].0) && short(environment@[k as int].1)));
                return Err(StandardsMcpConfigError::InvalidProcessConfig);
            }
            k = k + 1;
        }
        Ok(StandardsMcpConfig { executable, arguments, environment })
    }

    pub fn executable(&self) -> (r: &str)
        ensures
            r@ == self.program(),
    {
        self.executable.as_str()
    }

    pub fn arguments(&self) -> (r: &Vec<String>)
        ensures
            r@ == self.given_arguments(),
    {
        &self.arguments
    }

    pub fn environment(&self) -> (r: &Vec<(String, String)>)
        ensures
            r@ == self.given_environment(),
    {
        &self.environment
    }

    /// What is written of a configuration for debugging: the executable, how many arguments it has
    /// and the keys of its environment.
    pub fn redacted(&self) -> (r: String)
        ensures
            r@ == "StandardsMcpConfig { executable: "@ + quoted_text(self.program())
                + ", argument_count: "@ + decimal_text(self.given_arguments().len())
                + ", environment_keys: ["@ + joined(quoted_keys(self.given_environment()))
                + "], environment_values: \"[REDACTED]\" }"@,
    {
        let mut keys: Vec<String> = Vec::new();
        let mut i: usize = 0;
        while i < self.environment.len()
            invariant
                i <= self.environment.len(),
                keys@.len() == i,
                forall|j: int|
                    0 <= j < i ==> (#[trigger] keys@[j])@ == quoted_text(self.environment@[j].0@),
            decreases self.environment.len() - i,
        {
            keys.push(quoted(self.environment[i].0.as_str()));
            i = i + 1;
        }
        assert(texts(keys@) =~= quoted_keys(self.environment@));
        let mut out = "StandardsMcpConfig { executable: ".to_owned();
        out.append(quoted(self.executable.as_str()).as_str());
        out.append(", argument_count: ");
        out.append(decimal(self.arguments.len() as u64).as_str());
        out.append(", environment_keys: [");
        out.append(join(&keys).as_str());
        out.append("], environment_values: \"[REDACTED]\" }");
        out
    }
}

/// Whether the backend can be asked at all: it keeps no snapshots.
pub fn check_request(request: &KnowledgeRequest) -> (r: Result<(), KnowledgeError>)
    ensures
        r == (if required_version(request@.snapshots, standards_backend()) is Some {
            Err::<(), KnowledgeError>(KnowledgeError::SnapshotMismatch)
        } else {
            Ok(())
        }),
{
    if request.snapshot_for(KnowledgeBackendId::StandardsMcp).is_some() {
        Err(KnowledgeError::SnapshotMismatch)
    } else {
        Ok(())
    }
}

fn text_leaf(text: &str) -> (r: serde_json::Value)
    ensures
        value_json(r) == JsonModel::Text(text@),
{
    make_leaf(JsonLeaf::Text(text.to_owned()))
}

/// What a search call says.
pub open spec fn is_search_call(json: JsonModel, query: Seq<char>, limit: nat) -> bool {
    let params = json_at(json, "params"@)->0;
    let arguments = json_at(params, "arguments"@)->0;
    &&& json is Object && json->Object_0.len() == 4
    &&& json_at(json, "jsonrpc"@) == Some(JsonModel::Text("2.0"@))
    &&& json_at(json, "id"@) matches Some(JsonModel::Number(_, Some(2)))
    &&& json_at(json, "method"@) == Some(JsonModel::Text("tools/call"@))
    &&& json_at(json, "params"@) is Some
    &&& params is Object && params->Object_0.len() == 2
    &&& json_at(params, "name"@) == Some(JsonModel::Text("search_standards_kag"@))
    &&& json_at(params, "arguments"@) is Some
    &&& arguments is Object && arguments->Object_0.len() == 8
    &&& json_at(arguments, "query"@) == Some(JsonModel::Text(query))
    &&& json_at(arguments, "limit"@) matches Some(JsonModel::Number(_, Some(number))) && number
        == limit
    &&& json_at(arguments, "include_preview"@) == Some(JsonModel::Bool(true))
    &&& json_at(arguments, "provider"@) == Some(JsonModel::Text("local"@))
    &&& json_at(arguments, "model"@) == Some(JsonModel::Text("BAAI/bge-m3"@))
    &&& json_at(arguments, "pool_limit"@) matches Some(JsonModel::Number(_, Some(20)))
    &&& json_at(arguments, "graph_weight"@) == parsed_json("0.001"@)
    &&& json_at(arguments, "review_status"@) == Some(JsonModel::Null)
}

proof fn member_by_place(members: Seq<(Seq<char>, JsonModel)>, i: int)
    requires
        keys_differ(members),
        0 <= i < members.len(),
    ensures
        member_of(members, members[i].0) == Some(members[i].1),
    decreases members.len(),
{
    if i > 0 {
        let rest = members.drop_first();
        assert(members.first() == members[0]);
        assert forall|a: int, b: int| 0 <= a < b < rest.len() implies (#[trigger] rest[a]).0 != (
        #[trigger] rest[b]).0 by {
            assert(rest[a] == members[a + 1]);
            assert(rest[b] == members[b + 1]);
        }
        assert(rest[i - 1] == members[i]);
        member_by_place(rest, i - 1);
    }
}

/// The call that searches the backend, the only one that it is ever sent. It cannot be made only
/// where its constant weight is no JSON.
pub fn search_call(query: &str, limit: usize) -> (r: Option<serde_json::Value>)
    ensures
        match r {
            Some(call) => is_search_call(value_json(call), query@, limit as nat),
            None => parsed_json("0.001"@) is None,
        },
{
    let weight = match parse_json("0.001") {
        Some(weight) => weight,
        None => {
            return None;
        },
    };
    proof {
        reveal_strlit("query");
        reveal_strlit("limit");
        reveal_strlit("include_preview");
        reveal_strlit("provider");
        reveal_strlit("model");
        reveal_strlit("pool_limit");
        reveal_strlit("graph_weight");
        reveal_strlit("review_status");
        reveal_strlit("name");
        reveal_strlit("arguments");
        reveal_strlit("jsonrpc");
        reveal_strlit("id");
        reveal_strlit("method");
        reveal_strlit("params");
    }
    let mut inner: Vec<(String, serde_json::Value)> = Vec::new();
    inner.push(("query".to_owned(), text_leaf(query)));
    inner.push(("limit".to_owned(), make_leaf(JsonLeaf::Unsigned(limit as u64))));
    inner.push(("include_preview".to_owned(), make_leaf(JsonLeaf::Bool(true))));
    inner.push(("provider".to_owned(), text_leaf("local")));
    inner.push(("model".to_owned(), text_leaf("BAAI/bge-m3")));
    inner.push(("pool_limit".to_owned(), make_leaf(JsonLeaf::Unsigned(20))));
    inner.push(("graph_weight".to_owned(), weight));
    inner.push(("review_status".to_owned(), make_leaf(JsonLeaf::Null)));
    let ghost inner_members = given_members(inner@);
    proof {
        assert(inner_members[0].0.len() == 5 && inner_members[0].0[0] == 'q');
        assert(inner_members[1].0.len() == 5 && inner_members[1].0[0] == 'l');
        assert(inner_members[2].0.len() == 15);
        assert(inner_members[3].0.len() == 8);
        assert(inner_members[4].0.len() == 5 && inner_members[4].0[0] == 'm');
        assert(inner_members[5].0.len() == 10);
        assert(inner_members[6].0.len() == 12);
        assert(inner_members[7].0.len() == 13);
        member_by_place(inner_members, 0);
        member_by_place(inner_members, 1);
        member_by_place(inner_members, 2);
        member_by_place(inner_members, 3);
        member_by_place(inner_members, 4);
        member_by_place(inner_members, 5);
        member_by_place(inner_members, 6);
        member_by_place(inner_members, 7);
    }
    let arguments = make_object(inner);
    let mut middle: Vec<(String, serde_json::Value)> = Vec::new();
    middle.push(("name".to_owned(), text_leaf("search_standards_kag")));
    middle.push(("arguments".to_owned(), arguments));
    let ghost middle_members = given_members(middle@);
    proof {
        assert(middle_members[0].0.len() == 4);
        assert(middle_members[1].0.len() == 9);
        member_by_place(middle_members, 0);
        member_by_place(middle_members, 1);
    }
    let params = make_object(middle);
    let mut outer: Vec<(String, serde_json::Value)> = Vec::new();
    outer.push(("jsonrpc".to_owned(), text_leaf("2.0")));
    outer.push(("id".to_owned(), make_leaf(JsonLeaf::Unsigned(2))));
    outer.push(("method".to_owned(), text_leaf("tools/call")));
    outer.push(("params".to_owned(), params));
    let ghost outer_members = given_members(outer@);
    proof {
        assert(outer_members[0].0.len() == 7);
        assert(outer_members[1].0.len() == 2);
        assert(outer_members[2].0.len() == 6 && outer_members[2].0[0] == 'm');
        assert(outer_members[3].0.len() == 6 && outer_members[3].0[0] == 'p');
        member_by_place(outer_members, 0);
        member_by_place(outer_members, 1);
        member_by_place(outer_members, 2);
        member_by_place(outer_members, 3);
    }
    Some(make_object(outer))
}

/// The protocol version that both sides must speak.
pub open spec fn protocol_version() -> Seq<char> {
    "2025-06-18"@
}

/// What the greeting says.
pub open spec fn is_initialize_call(json: JsonModel) -> bool {
    let params = json_at(json, "params"@)->0;
    let client = json_at(params, "clientInfo"@)->0;
    let capabilities = json_at(params, "capabilities"@)->0;
    &&& json is Object && json->Object_0.len() == 4
    &&& json_at(json, "jsonrpc"@) == Some(JsonModel::Text("2.0"@))
    &&& json_at(json, "id"@) matches Some(JsonModel::Number(_, Some(1)))
    &&& json_at(json, "method"@) == Some(JsonModel::Text("initialize"@))
    &&& json_at(json, "params"@) is Some
    &&& params is Object && params->Object_0.len() == 3
    &&& json_at(params, "protocolVersion"@) == Some(JsonModel::Text(protocol_version()))
    &&& json_at(params, "capabilities"@) is Some
    &&& capabilities is Object && capabilities->Object_0.len() == 0
    &&& json_at(params, "clientInfo"@) is Some
    &&& client is Object && client->Object_0.len() == 2
    &&& json_at(client, "name"@) == Some(JsonModel::Text("enterprise-local-agent"@))
    &&& json_at(client, "version"@) == Some(JsonModel::Text("0.1.0"@))
}

/// The greeting that opens a session.
pub fn initialize_call() -> (r: serde_json::Value)
    ensures
        is_initialize_call(value_json(r)),
{
    proof {
        reveal_strlit("name");
        reveal_strlit("version");
        reveal_strlit("protocolVersion");
        reveal_strlit("capabilities");
        reveal_strlit("clientInfo");
        reveal_strlit("jsonrpc");
        reveal_strlit("id");
        reveal_strlit("method");
        reveal_strlit("params");
    }
    let mut inner: Vec<(String, serde_json::Value)> = Vec::new();
    inner.push(("name".to_owned(), text_leaf("enterprise-local-agent")));
    inner.push(("version".to_owned(), text_leaf("0.1.0")));
    let ghost inner_members = given_members(inner@);
    proof {
        assert(inner_members[0].0.len() == 4);
        assert(inner_members[1].0.len() == 7);
        member_by_place(inner_members, 0);
        member_by_place(inner_members, 1);
    }
    let client = make_object(inner);
    let nothing: Vec<(String, serde_json::Value)> = Vec::new();
    let capabilities = make_object(nothing);
    let mut middle: Vec<(String, serde_json::Value)> = Vec::new();
    middle.push(("protocolVersion".to_owned(), text_leaf("2025-06-18")));
    middle.push(("capabilities".to_owned(), capabilities));
    middle.push(("clientInfo".to_owned(), client));
    let ghost middle_members = given_members(middle@);
    proof {
        assert(middle_members[0].0.len() == 15);
        assert(middle_members[1].0.len() == 12);
        assert(middle_members[2].0.len() == 10);
        member_by_place(middle_members, 0);
        member_by_place(middle_members, 1);
        member_by_place(middle_members, 2);
    }
    let params = make_object(middle);
    let mut outer: Vec<(String, serde_json::Value)> = Vec::new();
    outer.push(("jsonrpc".to_owned(), text_leaf("2.0")));
    outer.push(("id".to_owned(), make_leaf(JsonLeaf::Unsigned(1))));
    outer.push(("method".to_owned(), text_leaf("initialize")));
    outer.push(("params".to_owned(), params));
    let ghost outer_members = given_members(outer@);
    proof {
        assert(outer_members[0].0.len() == 7);
        assert(outer_members[1].0.len() == 2);
        assert(outer_members[2].0.len() == 6 && outer_members[2].0[0] == 'm');
        assert(outer_members[3].0.len() == 6 && outer_members[3].0[0] == 'p');
        member_by_place(outer_members, 0);
        member_by_place(outer_members, 1);
        member_by_place(outer_members, 2);
        member_by_place(outer_members, 3);
    }
    make_object(outer)
}

/// What the notice says that the session is open.
pub open spec fn is_initialized_notice(json: JsonModel) -> bool {
    let params = json_at(json, "params"@)->0;
    &&& json is Object && json->Object_0.len() == 3
    &&& json_at(json, "jsonrpc"@) == Some(JsonModel::Text("2.0"@))
    &&& json_at(json, "method"@) == Some(JsonModel::Text("notifications/initialized"@))
    &&& json_at(json, "params"@) is Some
    &&& params is Object && params->Object_0.len() == 0
}

/// The notice that the session is open.
pub fn initialized_notice() -> (r: serde_json::Value)
    ensures
        is_initialized_notice(value_json(r)),
{
    proof {
        reveal_strlit("jsonrpc");
        reveal_strlit("method");
        reveal_strlit("params");
    }
    let nothing: Vec<(String, serde_json::Value)> = Vec::new();
    let mut outer: Vec<(String, serde_json::Value)> = Vec::new();
    outer.push(("jsonrpc".to_owned(), text_leaf("2.0")));
    outer.push(("method".to_owned(), text_leaf("notifications/initialized")));
    outer.push(("params".to_owned(), make_object(nothing)));
    let ghost members = given_members(outer@);
    proof {
        assert(members[0].0.len() == 7);
        assert(members[1].0.len() == 6 && members[1].0[0] == 'm');
        assert(members[2].0.len() == 6 && members[2].0[0] == 'p');
        member_by_place(members, 0);
        member_by_place(members, 1);
        member_by_place(members, 2);
    }
    make_object(outer)
}

/// A message as it is sent: one line.
pub fn frame_message(message: &serde_json::Value) -> (r: Result<Vec<u8>, KnowledgeError>)
    ensures
        match r {
            Ok(line) => written_json(value_json(*message)) is Some && line@ == written_json(
                value_json(*message),
            )->0.push(10),
            Err(error) => written_json(value_json(*message)) is None && error
                == KnowledgeError::Failed(standards_backend()),
        },
{
    match write_json(message) {
        Some(mut line) => {
            line.push(10);
            Ok(line)
        },
        None => Err(KnowledgeError::Failed(KnowledgeBackendId::StandardsMcp)),
    }
}

/// The lines that have come from the process, within the bytes that a session may bring.
#[derive(Debug)]
pub struct LineReader {
    bytes_read: usize,
    line: Vec<u8>,
}

/// How many of the bytes belong to the current line, its end included.
pub open spec fn line_part(available: Seq<u8>) -> int
    decreases available.len(),
{
    if available.len() == 0 {
        0
    } else if available[0] == 10 {
        1
    } else {
        1 + line_part(available.drop_first())
    }
}

/// What comes of more bytes.
#[derive(Debug)]
pub enum LineStep {
    /// So many bytes are taken, and the line goes on.
    More(usize),
    /// So many bytes are taken, and the line is complete, its end left off.
    Line(usize, Vec<u8>),
    Failed(KnowledgeError),
}

fn measure_line_part(available: &[u8]) -> (r: usize)
    ensures
        r == line_part(available@),
        r <= available@.len(),
        available@.len() > 0 ==> r > 0,
{
    let mut i: usize = 0;
    assert(available@.skip(0) =~= available@);
    while i < available.len()
        invariant
            i <= available@.len(),
            line_part(available@) == i + line_part(available@.skip(i as int)),
        decreases available.len() - i,
    {
        proof {
            assert(available@.skip(i as int)[0] == available@[i as int]);
            assert(available@.skip(i as int).drop_first() =~= available@.skip(i + 1));
        }
        if available[i] == 10 {
            return i + 1;
        }
        i = i + 1;
    }
    i
}

impl LineReader {
    pub closed spec fn read(self) -> nat {
        self.bytes_read as nat
    }

    pub closed spec fn pending(self) -> Seq<u8> {
        self.line@
    }

    pub fn new() -> (r: Self)
        ensures
            r.read() == 0,
            r.pending() == Seq::<u8>::empty(),
    {
        LineReader { bytes_read: 0, line: Vec::new() }
    }

    /// Takes the bytes that are available, up to the end of the line. None at all means that the
    /// process is gone.
    pub fn feed(&mut self, available: &[u8]) -> (r: LineStep)
        ensures
            ({
                let part = available@.take(line_part(available@));
                let grown = old(self).pending() + part;
                let fits = old(self).read() + part.len() <= MAX_MCP_RESPONSE_BYTES;
                if available@.len() == 0 {
                    r == LineStep::Failed(KnowledgeError::Unavailable(standards_backend()))
                        && final(self).read() == old(self).read() && final(self).pending() == old(
                        self,
                    ).pending()
                } else if !fits {
                    r == LineStep::Failed(KnowledgeError::MalformedResponse) && final(self).read()
                        == old(self).read() && final(self).pending() == old(self).pending()
                } else if grown.last() == 10 {
                    &&& r matches LineStep::Line(taken, line) && taken == part.len() && line@
                        == grown.drop_last()
                    &&& final(self).read() == old(self).read() + part.len()
                    &&& final(self).pending() == Seq::<u8>::empty()
                } else {
                    &&& r matches LineStep::More(taken) && taken == part.len()
                    &&& final(self).read() == old(self).read() + part.len()
                    &&& final(self).pending() == grown
                }
            }),
    {
        if available.len() == 0 {
            return LineStep::Failed(KnowledgeError::Unavailable(KnowledgeBackendId::StandardsMcp));
        }
        let consumed = measure_line_part(available);
        assert(available@.take(line_part(available@)).len() == consumed);
        if self.bytes_read > MAX_MCP_RESPONSE_BYTES || consumed > MAX_MCP_RESPONSE_BYTES
            - self.bytes_read {
            return LineStep::Failed(KnowledgeError::MalformedResponse);
        }
        let ghost before = self.line@;
        let mut i: usize = 0;
        while i < consumed
            invariant
                i <= consumed <= available@.len(),
                self.line@ =~= before + available@.take(i as int),
                self.bytes_read == old(self).bytes_read,
            decreases consumed - i,
        {
            self.line.push(available[i]);
            i = i + 1;
        }
        self.bytes_read = self.bytes_read + consumed;
        let complete = self.line[self.line.len() - 1] == 10;
        if complete {
            let mut line: Vec<u8> = Vec::new();
            std::mem::swap(&mut line, &mut self.line);
            line.pop();
            LineStep::Line(consumed, line)
        } else {
            LineStep::More(consumed)
        }
    }
}

/// What a message is to someone who waits for an answer.
pub enum MessageStep {
    /// It answers something else.
    Wait,
    Answer(serde_json::Value),
    Failed(KnowledgeError),
}

/// Whether a message answers the call of this number.
pub open spec fn answers(json: JsonModel, id: u64) -> bool {
    json_at(json, "id"@) matches Some(JsonModel::Number(_, Some(number))) && number == id
}

fn answers_call(value: &serde_json::Value, id: u64) -> (r: bool)
    ensures
        r == answers(value_json(*value), id),
{
    match value_at(value, "id") {
        Some(inner) => match open_value(inner) {
            JsonNode::Number { text: _, unsigned } => match unsigned {
                Some(number) => number == id,
                None => false,
            },
            _ => false,
        },
        None => false,
    }
}

/// Waiting for the answer to one call.
#[derive(Clone, Copy, Debug, PartialEq, Eq, Structural)]
pub struct Exchange {
    pub id: u64,
    /// How many messages have come.
    pub seen: usize,
}

impl Exchange {
    /// What the next message means, given what was read in it.
    pub open spec fn judged(self, parsed: Option<JsonModel>, step: MessageStep) -> bool {
        match parsed {
            None => step == MessageStep::Failed(KnowledgeError::MalformedResponse),
            Some(json) => if !answers(json, self.id) {
                if self.seen + 1 >= MAX_PROTOCOL_MESSAGES {
                    step == MessageStep::Failed(KnowledgeError::MalformedResponse)
                } else {
                    step == MessageStep::Wait
                }
            } else if json_at(json, "error"@) is Some {
                step == MessageStep::Failed(KnowledgeError::Failed(standards_backend()))
            } else {
                step matches MessageStep::Answer(value) && value_json(value) == json
            },
        }
    }

    pub fn new(id: u64) -> (r: Self)
        ensures
            r == (Exchange { id, seen: 0 }),
    {
        Exchange { id, seen: 0 }
    }

    /// Takes what was read in the next message.
    pub fn on_parsed(&mut self, parsed: Option<serde_json::Value>) -> (r: MessageStep)
        requires
            old(self).seen < MAX_PROTOCOL_MESSAGES,
        ensures
            old(self).judged(
                match parsed {
                    None => None,
                    Some(value) => Some(value_json(value)),
                },
                r,
            ),
            *final(self) == (Exchange { seen: (old(self).seen + 1) as usize, ..*old(self) }),
    {
        self.seen = self.seen + 1;
        let value = match parsed {
            Some(value) => value,
            None => {
                return MessageStep::Failed(KnowledgeError::MalformedResponse);
            },
        };
        if !answers_call(&value, self.id) {
            return if self.seen >= MAX_PROTOCOL_MESSAGES {
                MessageStep::Failed(KnowledgeError::MalformedResponse)
            } else {
                MessageStep::Wait
            };
        }
        if value_at(&value, "error").is_some() {
            return MessageStep::Failed(KnowledgeError::Failed(KnowledgeBackendId::StandardsMcp));
        }
        MessageStep::Answer(value)
    }

    /// Takes the next line.
    pub fn on_line(&mut self, line: &[u8]) -> (r: MessageStep)
        requires
            old(self).seen < MAX_PROTOCOL_MESSAGES,
        ensures
            old(self).judged(parsed_json_bytes(line@), r),
            *final(self) == (Exchange { seen: (old(self).seen + 1) as usize, ..*old(self) }),
    {
        let parsed = parse_json_bytes(line);
        self.on_parsed(parsed)
    }
}

/// The version that the other side answers a greeting with, if it answers with one.
pub open spec fn answered_version(json: JsonModel) -> Option<Seq<char>> {
    match json_at(json, "result"@) {
        Some(result) => match json_at(result, "protocolVersion"@) {
            Some(JsonModel::Text(version)) => Some(version),
            _ => None,
        },
        None => None,
    }
}

/// Whether the answer to the greeting speaks the same version.
pub fn check_initialize(response: &serde_json::Value) -> (r: Result<(), KnowledgeError>)
    ensures
        r == (if answered_version(value_json(*response)) == Some(protocol_version()) {
            Ok(())
        } else {
            Err::<(), KnowledgeError>(KnowledgeError::MalformedResponse)
        }),
{
    match value_at(response, "result") {
        Some(result) => match value_at(result, "protocolVersion") {
            Some(version) => match open_value(version) {
                JsonNode::Text(text) => if str_equal(text.as_str(), "2025-06-18") {
                    Ok(())
                } else {
                    Err(KnowledgeError::MalformedResponse)
                },
                _ => Err(KnowledgeError::MalformedResponse),
            },
            None => Err(KnowledgeError::MalformedResponse),
        },
        None => Err(KnowledgeError::MalformedResponse),
    }
}

/// What the answer to a search holds.
pub open spec fn answered_search(json: JsonModel) -> Result<JsonModel, KnowledgeError> {
    match json_at(json, "result"@) {
        None => Err(KnowledgeError::MalformedResponse),
        Some(result) => if json_at(result, "isError"@) == Some(JsonModel::Bool(true)) {
            Err(KnowledgeError::Failed(standards_backend()))
        } else {
            match json_at(result, "structuredContent"@) {
                None => Err(KnowledgeError::MalformedResponse),
                Some(structured) => Ok(structured),
            }
        },
    }
}

/// Takes what was found out of the answer to a search.
pub fn search_payload(response: &serde_json::Value) -> (r: Result<
    serde_json::Value,
    KnowledgeError,
>)
    ensures
        match r {
            Ok(payload) => answered_search(value_json(*response)) == Ok::<
                JsonModel,
                KnowledgeError,
            >(value_json(payload)),
            Err(error) => answered_search(value_json(*response)) == Err::<
                JsonModel,
                KnowledgeError,
            >(error),
        },
{
    let result = match value_at(response, "result") {
        Some(result) => result,
        None => {
            return Err(KnowledgeError::MalformedResponse);
        },
    };
    match value_at(result, "isError") {
        Some(flag) => match open_value(flag) {
            JsonNode::Bool(failed) => {
                if failed {
                    return Err(KnowledgeError::Failed(KnowledgeBackendId::StandardsMcp));
                }
            },
            _ => {},
        },
        None => {},
    }
    match value_at(result, "structuredContent") {
        Some(structured) => Ok(copy_value(structured)),
        None => Err(KnowledgeError::MalformedResponse),
    }
}

/// What a search found.
pub struct StandardsResponse {
    pub retrieval_mode: String,
    pub results: Vec<StandardsResult>,
}

/// One result of a search. The score is given by the bits of a 64-bit floating-point number.
pub struct StandardsResult {
    pub chunk_id: String,
    pub source_id: String,
    pub source_title: String,
    pub section: Option<String>,
    pub heading: Option<String>,
    pub page_range: PageRange,
    pub chunk_type: String,
    pub combined_score_bits: u64,
    pub content_preview: Option<String>,
}

#[derive(Clone, Copy, Debug, PartialEq, Eq, Structural)]
pub struct PageRange {
    pub start: Option<u32>,
    pub end: Option<u32>,
}

pub open spec fn page_text(page: Option<u32>) -> Seq<char> {
    match page {
        None => Seq::empty(),
        Some(page) => decimal_text(page as nat),
    }
}

impl PageRange {
    /// The pages as text, if any is known.
    pub open spec fn text(self) -> Option<Seq<char>> {
        if self.start is None && self.end is None {
            None
        } else {
            Some(page_text(self.start) + "-"@ + page_text(self.end))
        }
    }

    fn render(self) -> (r: Option<String>)
        ensures
            match r {
                None => self.text() is None,
                Some(text) => self.text() == Some(text@),
            },
    {
        if self.start.is_none() && self.end.is_none() {
            return None;
        }
        let mut out = match self.start {
            None => String::new(),
            Some(page) => decimal(page as u64),
        };
        out.append("-");
        match self.end {
            None => {},
            Some(page) => {
                out.append(decimal(page as u64).as_str());
            },
        }
        assert(out@ =~= page_text(self.start) + "-"@ + page_text(self.end));
        Some(out)
    }
}

impl StandardsResult {
    /// A source and a chunk of it.
    pub open spec fn reference(self) -> Seq<char> {
        self.source_id@ + ":"@ + self.chunk_id@
    }

    /// Whether this is the metadata of the result.
    pub open spec fn described_by(self, metadata: EvidenceMetadata) -> bool {
        metadata matches EvidenceMetadata::Standards {
            source_title,
            section,
            heading,
            page_range,
            chunk_type,
        } && source_title == self.source_title && section == self.section && heading
            == self.heading && chunk_type == self.chunk_type && (match page_range {
            None => self.page_range.text() is None,
            Some(text) => self.page_range.text() == Some(text@),
        })
    }

    pub open spec fn described(self) -> bool {
        &&& bounded_text(self.source_title@, MAX_SAFE_METADATA_BYTES as int)
        &&& is_optional_bounded(self.section)
        &&& is_optional_bounded(self.heading)
        &&& bounded_text(self.chunk_type@, MAX_SAFE_METADATA_BYTES as int)
        &&& self.page_range.text() matches Some(text) ==> bounded_text(
            text,
            MAX_SAFE_METADATA_BYTES as int,
        )
    }

    /// Whether a result can be taken as evidence, once its content is cut to `max` bytes.
    pub open spec fn usable(self, max: int) -> bool {
        &&& self.content_preview matches Some(content) && content_fits(truncated(content@, max))
        &&& bounded_text("standards:"@ + self.chunk_id@, MAX_EVIDENCE_ID_BYTES as int)
        &&& bounded_text(self.source_id@, MAX_SAFE_METADATA_BYTES as int)
        &&& bits_are_finite(self.combined_score_bits)
        &&& self.described()
        &&& bounded_text(self.chunk_id@, MAX_SAFE_METADATA_BYTES as int)
        &&& bounded_text(self.reference(), MAX_EVIDENCE_ID_BYTES as int)
    }

    /// Whether this is the evidence that a result amounts to, at its place among the results.
    pub open spec fn amounts_to(self, max: int, index: int, evidence: EvidenceView) -> bool {
        &&& self.described_by(evidence.metadata)
        &&& evidence == (EvidenceView {
            id: "standards:"@ + self.chunk_id@,
            backend: standards_backend(),
            source_id: self.source_id@,
            content: truncated(self.content_preview->0@, max),
            rank: (index + 1) as u8,
            score: Some(
                NativeScore::of(
                    self.combined_score_bits,
                    NativeScoreSystem::StandardsKagCombined,
                ),
            ),
            document_id: Some(self.source_id@),
            chunk_id: Some(self.chunk_id@),
            reference_id: self.reference(),
            canonical_reference: None,
            version_reference: None,
            metadata: evidence.metadata,
        })
    }

    /// Whether content is cut off.
    pub open spec fn cut(self, max: int) -> bool {
        self.content_preview matches Some(content) && utf8_len(content@) > max
    }
}

/// Whether what a search found can be taken.
pub open spec fn response_usable(response: StandardsResponse, max: int) -> bool {
    &&& response.retrieval_mode@ == "hybrid_rrf_light_kag"@
    &&& response.results@.len() <= MAX_RESULTS
    &&& forall|i: int|
        0 <= i < response.results@.len() ==> (#[trigger] response.results@[i]).usable(max)
}

fn result_evidence(item: StandardsResult, max_item_bytes: usize, index: usize) -> (r: Option<
    (Evidence, bool),
>)
    requires
        index < MAX_RESULTS,
    ensures
        match r {
            Some((evidence, cut)) => {
                &&& item.usable(max_item_bytes as int)
                &&& item.amounts_to(max_item_bytes as int, index as int, evidence@)
                &&& cut == item.cut(max_item_bytes as int)
            },
            None => !item.usable(max_item_bytes as int),
        },
{
    let content = match item.content_preview {
        Some(content) => content,
        None => {
            return None;
        },
    };
    let (content, cut) = truncate_utf8(content, max_item_bytes);
    let page_range = item.page_range.render();
    let mut reference_id = item.source_id.clone();
    reference_id.append(":");
    reference_id.append(item.chunk_id.as_str());
    let mut name = "standards:".to_owned();
    name.append(item.chunk_id.as_str());
    let metadata = EvidenceMetadata::Standards {
        source_title: item.source_title,
        section: item.section,
        heading: item.heading,
        page_range,
        chunk_type: item.chunk_type,
    };
    let id = match EvidenceId::new(name) {
        Ok(id) => id,
        Err(_) => {
            return None;
        },
    };
    let source = match EvidenceSource::new(
        KnowledgeBackendId::StandardsMcp,
        item.source_id.clone(),
    ) {
        Ok(source) => source,
        Err(_) => {
            return None;
        },
    };
    let score = match NativeScore::new(
        item.combined_score_bits,
        NativeScoreSystem::StandardsKagCombined,
    ) {
        Ok(score) => score,
        Err(_) => {
            return None;
        },
    };
    match Evidence::new(
        id,
        source,
        content,
        index + 1,
        Some(score),
        Some(item.source_id),
        Some(item.chunk_id),
        reference_id,
        None,
        None,
        metadata,
    ) {
        Ok(evidence) => Some((evidence, cut)),
        Err(_) => None,
    }
}

/// Takes what a search found as evidence: all of it, or none.
pub fn normalize(payload: StandardsResponse, max_item_bytes: usize) -> (r: Result<
    BackendEvidenceSet,
    KnowledgeError,
>)
    ensures
        match r {
            Ok(set) => {
                let results = payload.results@;
                let max = max_item_bytes as int;
                &&& response_usable(payload, max)
                &&& set@.backend == standards_backend()
                &&& set@.snapshot is None
                &&& set@.evidence.len() == results.len()
                &&& forall|i: int|
                    0 <= i < results.len() ==> results[i].amounts_to(
                        max,
                        i,
                        #[trigger] set@.evidence[i],
                    )
                &&& set@.truncated == exists|i: int|
                    0 <= i < results.len() && (#[trigger] results[i]).cut(max)
            },
            Err(error) => error == KnowledgeError::MalformedResponse && !response_usable(
                payload,
                max_item_bytes as int,
            ),
        },
{
    if !str_equal(payload.retrieval_mode.as_str(), "hybrid_rrf_light_kag") || payload.results.len()
        > MAX_RESULTS {
        return Err(KnowledgeError::MalformedResponse);
    }
    let ghost all = payload.results@;
    let ghost max = max_item_bytes as int;
    let count = payload.results.len();
    let mut rest = payload.results;
    let mut evidence: Vec<Evidence> = Vec::new();
    let mut any_cut = false;
    let mut index: usize = 0;
    assert(all.skip(0) =~= all);
    while index < count
        invariant
            index <= count == all.len(),
            count <= MAX_RESULTS,
            all == payload.results@,
            max == max_item_bytes,
            rest@ == all.skip(index as int),
            evidence@.len() == index,
            forall|i: int| 0 <= i < index ==> (#[trigger] all[i]).usable(max),
            forall|i: int|
                0 <= i < index ==> all[i].amounts_to(max, i, (#[trigger] evidence@[i])@),
            any_cut == exists|i: int| 0 <= i < index && (#[trigger] all[i]).cut(max),
        decreases count - index,
    {
        let item = rest.remove(0);
        proof {
            assert(item == all[index as int]);
            assert(all.skip(index as int).remove(0) =~= all.skip(index + 1));
        }
        match result_evidence(item, max_item_bytes, index) {
            Some((piece, cut)) => {
                evidence.push(piece);
                any_cut = any_cut || cut;
            },
            None => {
                assert(!all[index as int].usable(max));
                return Err(KnowledgeError::MalformedResponse);
            },
        }
        index = index + 1;
    }
    proof {
        let views = evidence_views(evidence@);
        assert forall|i: int| 0 <= i < views.len() implies (#[trigger] views[i]).backend
            == standards_backend() by {
            assert(views[i] == evidence@[i]@);
        }
    }
    match BackendEvidenceSet::new(KnowledgeBackendId::StandardsMcp, evidence, None, any_cut) {
        Ok(set) => Ok(set),
        Err(_) => Err(KnowledgeError::MalformedResponse),
    }
}

} // verus!

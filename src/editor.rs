//! The state of an editing session, and what the interface does with the
//! notices that the workers send it.
use vstd::prelude::*;
use vstd::string::*;
use serde_json::Value;
use crate::block_cache::{lemma_four_slots, slots_after_set, valid_slot, BlockCache};
use crate::config::{EditorConfig, EditorViews, UserConfig};
use crate::graph::{first_unresolved, graph_resolves, is_default_graph, source_text, GenerateError, ModuleGraph};
use crate::json::{is_json_null, json_parse, parse_json};
use crate::modules::Module;
use crate::tasks::{record_notice, GuiMessage, MessageKind, StreamMessages, WorkerMessage};
use crate::text::{decimal, decimal_u64};

verus! {

/// An editing session: its settings, the module graph, the block cache and
/// the message log.
pub struct EditorState {
    pub template_repo_path: String,
    pub substreams_api_key: String,
    pub user_config: UserConfig,
    pub block_cache: BlockCache,
    pub editor_config: EditorConfig,
    pub view_config: EditorViews,
    pub messages: Vec<MessageKind>,
    pub message_search: String,
    pub modules: ModuleGraph,
    pub display_welcome_message: bool,
}

/// The log line that reports a block written to slot `slot`.
pub open spec fn block_set_text(slot: u8) -> Seq<char> {
    "Block "@ + decimal(slot as nat) + " set"@
}

/// The log line that reports a block record for a slot number outside 1 to 4.
pub open spec fn invalid_slot_text(slot: u8) -> Seq<char> {
    "Error: invalid block slot "@ + decimal(slot as nat)
}

/// The log line that reports a record that is not JSON.
pub open spec fn malformed_text(data: Seq<char>) -> Seq<char> {
    "Error: malformed record: "@ + data
}

/// The block cache after the interface takes in `msg`: a block record that
/// is JSON is written to its slot; nothing else changes the cache.
pub open spec fn cache_after_notice(slots: Seq<Value>, msg: GuiMessage) -> Seq<Value> {
    match msg {
        GuiMessage::SetBlock(slot, data) => match json_parse(data@) {
            Some(v) => slots_after_set(slots, slot, v),
            None => slots,
        },
        _ => slots,
    }
}

/// `log` is `before` with one more line of text, `text`.
pub open spec fn logged_text(before: Seq<MessageKind>, log: Seq<MessageKind>, text: Seq<char>) -> bool {
    &&& log.len() == before.len() + 1
    &&& log.drop_last() =~= before
    &&& log.last() matches MessageKind::TextMessage(t) && t@ == text
}

impl EditorState {
    pub open spec fn wf(&self) -> bool {
        &&& self.user_config.wf()
        &&& self.modules.wf()
    }

    /// A new session: default settings, an empty log and cache, the default
    /// modules, the welcome message shown, and the key given, if any.
    pub fn new(api_key: Option<String>) -> (r: EditorState)
        ensures
            r.wf(),
            r.messages@.len() == 0,
            r.display_welcome_message,
            r.block_cache@.len() == 4,
            forall|i: int| 0 <= i < 4 ==> is_json_null(#[trigger] r.block_cache@[i]),
            r.block_cache.spec_ui_state().block_number == 0,
            is_default_graph(r.modules@),
            r.user_config.is_default(),
            r.editor_config.is_default(),
            r.view_config.is_default(),
            r.template_repo_path@.len() == 0,
            r.message_search@.len() == 0,
            match api_key {
                Some(k) => r.substreams_api_key == k,
                None => r.substreams_api_key@.len() == 0,
            },
    {
        let substreams_api_key = match api_key {
            Some(k) => k,
            None => String::new(),
        };
        EditorState {
            template_repo_path: String::new(),
            substreams_api_key,
            user_config: UserConfig::default(),
            block_cache: BlockCache::new(),
            editor_config: EditorConfig::default(),
            view_config: EditorViews::default(),
            messages: Vec::new(),
            message_search: String::new(),
            modules: Module::build_default_modules(),
            display_welcome_message: true,
        }
    }

    /// The script generated from the module graph.
    pub fn source_file(&self) -> (r: Result<String, GenerateError>)
        ensures
            r is Ok <==> graph_resolves(self.modules@),
            r matches Ok(s) ==> s@ == source_text(self.modules@),
            r matches Err(e) ==> first_unresolved(self.modules@, e),
    {
        self.modules.generate()
    }

    /// The URL of the endpoint the user selected.
    pub fn endpoint(&self) -> (r: &String)
        requires
            self.wf(),
        ensures
            r@ == self.user_config.spec_endpoints()[self.user_config.spec_selected_endpoint()].url@,
    {
        self.user_config.selected_endpoint_url()
    }

    /// Takes in a notice from a worker: a text line is logged; a JSON text
    /// is logged as its value; a block record is written to its slot and
    /// logged, with a line that says so; a record that is not JSON is
    /// logged as an error line, and changes nothing else.
    pub fn apply_gui_message(&mut self, msg: GuiMessage)
        ensures
            final(self).wf() == old(self).wf(),
            final(self).block_cache@ == cache_after_notice(old(self).block_cache@, msg),
            final(self).block_cache@.len() == 4,
            final(self).block_cache.spec_ui_state() == old(self).block_cache.spec_ui_state(),
            match msg {
                GuiMessage::PushMessage(t) => final(self).messages@ == old(self).messages@.push(
                    MessageKind::TextMessage(t),
                ),
                GuiMessage::ClearMessages => final(self).messages@.len() == 0,
                GuiMessage::PushJson(data) => match json_parse(data@) {
                    Some(v) => final(self).messages@ == old(self).messages@.push(
                        MessageKind::JsonMessage(v),
                    ),
                    None => logged_text(old(self).messages@, final(self).messages@, malformed_text(data@)),
                },
                GuiMessage::SetBlock(slot, data) => match json_parse(data@) {
                    Some(v) => if !valid_slot(slot) {
                        logged_text(old(self).messages@, final(self).messages@, invalid_slot_text(slot))
                    } else {
                        &&& logged_text(
                            old(self).messages@,
                            final(self).messages@.drop_last(),
                            block_set_text(slot),
                        )
                        &&& final(self).messages@.len() == old(self).messages@.len() + 2
                        &&& final(self).messages@.last() == MessageKind::JsonMessage(v)
                    },
                    None => logged_text(old(self).messages@, final(self).messages@, malformed_text(data@)),
                },
            },
    {
        proof {
            lemma_four_slots(self.block_cache);
        }
        match msg {
            GuiMessage::PushMessage(t) => {
                self.messages.push(MessageKind::TextMessage(t));
            },
            GuiMessage::ClearMessages => {
                self.messages.clear();
            },
            GuiMessage::PushJson(data) => {
                match parse_json(data.as_str()) {
                    Ok(v) => self.messages.push(MessageKind::JsonMessage(v)),
                    Err(_) => self.messages.push(MessageKind::TextMessage(malformed(&data))),
                }
            },
            GuiMessage::SetBlock(slot, data) => {
                match parse_json(data.as_str()) {
                    Ok(v) => if slot < 1 || slot > 4 {
                        let mut t = String::new();
                        t.append("Error: invalid block slot ");
                        t.append(decimal_u64(slot as u64).as_str());
                        self.messages.push(MessageKind::TextMessage(t));
                    } else {
                        self.block_cache.set(slot, v.clone());
                        let mut t = String::new();
                        t.append("Block ");
                        t.append(decimal_u64(slot as u64).as_str());
                        t.append(" set");
                        self.messages.push(MessageKind::TextMessage(t));
                        self.messages.push(MessageKind::JsonMessage(v));
                    },
                    Err(_) => self.messages.push(MessageKind::TextMessage(malformed(&data))),
                }
            },
        }
    }

    /// The request that evaluates the module `foo` on the block in slot 1.
    pub fn eval_block_request(&self) -> (r: WorkerMessage)
        ensures
            r matches WorkerMessage::EvalWithArgs(name, args) && name@ == "foo"@ && args@ == seq![
                self.block_cache@[0],
            ],
    {
        let mut args = Vec::new();
        args.push(self.block_cache.get(1).clone());
        WorkerMessage::EvalWithArgs(String::from_str("foo"), args)
    }

    /// The request that streams the configured module over the configured
    /// range, with the session's key.
    pub fn run_request(&self) -> (r: StreamMessages)
        ensures
            r matches StreamMessages::Run { start, stop, api_key, package_file, endpoint, module_name }
                && start == self.editor_config.stream_start_block
                && stop == self.editor_config.stream_stop_block
                && api_key@ == self.substreams_api_key@
                && package_file@ == self.editor_config.substream_package@
                && endpoint@ == self.editor_config.substream_endpoint@
                && module_name@ == self.editor_config.module_name@,
    {
        StreamMessages::Run {
            start: self.editor_config.stream_start_block,
            stop: self.editor_config.stream_stop_block,
            api_key: self.substreams_api_key.clone(),
            package_file: self.editor_config.substream_package.clone(),
            endpoint: self.editor_config.substream_endpoint.clone(),
            module_name: self.editor_config.module_name.clone(),
        }
    }

    /// The request that fetches the block number of the cache's form into
    /// slot 1, from the selected endpoint.
    pub fn block_request(&self) -> (r: StreamMessages)
        requires
            self.wf(),
        ensures
            r matches StreamMessages::GetBlock { number, api_key, endpoint, cache_slot }
                && number == self.block_cache.spec_ui_state().block_number as i64
                && api_key@ == self.substreams_api_key@
                && endpoint@ == self.user_config.spec_endpoints()[self.user_config.spec_selected_endpoint()].url@
                && cache_slot == 1,
    {
        StreamMessages::GetBlock {
            number: self.block_cache.ui_state().block_number as i64,
            api_key: self.substreams_api_key.clone(),
            endpoint: self.endpoint().clone(),
            cache_slot: 1,
        }
    }
}

fn malformed(data: &String) -> (r: String)
    ensures
        r@ == malformed_text(data@),
{
    let mut t = String::new();
    t.append("Error: malformed record: ");
    t.append(data.as_str());
    t
}

} // verus!

verus! {

/// A record fetched for a block lands in the slot that the fetch asked for,
/// as the value read from it, and no other slot changes; a record that is
/// not JSON changes no slot.
pub proof fn lemma_fetched_block_fills_slot(request: StreamMessages, data: String, cache: BlockCache)
    requires
        request matches StreamMessages::GetBlock { cache_slot, .. } && valid_slot(cache_slot),
    ensures
        ({
            let slot = request->GetBlock_cache_slot;
            let after = cache_after_notice(cache@, record_notice(request, data));
            &&& after.len() == 4
            &&& json_parse(data@) matches Some(v) ==> after[slot - 1] == v
            &&& forall|other: int| 0 <= other < 4 && other != slot - 1 ==> after[other] == cache@[other]
            &&& json_parse(data@) is None ==> after == cache@
        }),
{
    lemma_four_slots(cache);
}

} // verus!

use vstd::prelude::*;
use vstd::string::StringExecFns;

use crate::cmd::{Cmd, CmdView};
use crate::editor_features::EditorFeatures;
use crate::evt::{Evt, EvtView};
use crate::language::Language;
use crate::lsp::lsp_message::LspMessage;
use crate::text::{decimal, decimal_push, string_from_chars};
use crate::theme::Theme;
use crate::text::opt_view;

verus! {

/// The DOM id of the editor mounted with sequence number `n`.
pub open spec fn mount_id_spec(n: nat) -> Seq<char> {
    "cm-editor-"@ + decimal(n)
}

/// The DOM id of the element the `n`-th editor mounts into, e.g.
/// `"cm-editor-0"`.
pub fn mount_id(n: u64) -> (id: String)
    ensures
        id@ == mount_id_spec(n as nat),
{
    let mut digits: Vec<char> = Vec::new();
    decimal_push(n, &mut digits);
    let mut id = String::from_str("cm-editor-");
    id.append(string_from_chars(&digits).as_str());
    id
}

/// Editors mounted with distinct sequence numbers get distinct DOM ids, so
/// every editor on a page mounts into its own element.
pub proof fn lemma_mount_id_unique(a: nat, b: nat)
    ensures
        mount_id_spec(a) == mount_id_spec(b) ==> a == b,
{
    if mount_id_spec(a) == mount_id_spec(b) {
        let p = "cm-editor-"@;
        assert(mount_id_spec(a).skip(p.len() as int) =~= decimal(a));
        assert(mount_id_spec(b).skip(p.len() as int) =~= decimal(b));
        crate::text::lemma_decimal_injective(a, b);
    }
}

/// The plain configuration of an editor: everything its properties carry
/// besides the bound document, the language-server bridge and the ready
/// handler.
#[derive(Clone, Copy, Debug, PartialEq, Eq, Structural)]
pub struct EditorConfig {
    /// Show a line-number gutter.
    pub line_numbers: bool,
    /// Syntax highlighting language; `None` is plain text.
    pub language: Option<Language>,
    /// Optional CodeMirror features.
    pub features: EditorFeatures,
    /// Offer code actions (`Ctrl/Cmd + .`).
    pub code_actions: bool,
    /// Allow folding code.
    pub code_folding: bool,
    /// Bind `Tab`/`Shift-Tab` to indent.
    pub indent_with_tab: bool,
    /// Color theme.
    pub theme: Theme,
}

/// The first command for an editor: its mount point, asset base, initial
/// document and configuration, and the file URI of its language server, if
/// any.
pub open spec fn init_cmd_spec(
    config: EditorConfig,
    mount_id: Seq<char>,
    cm_base: Seq<char>,
    doc: Seq<char>,
    lsp_uri: Option<Seq<char>>,
) -> CmdView {
    CmdView::Init {
        mount_id,
        cm_base,
        doc,
        allow_multiple_selections: config.features.allow_multiple_selections,
        bracket_matching: config.features.bracket_matching,
        close_brackets: config.features.close_brackets,
        code_actions: config.code_actions,
        code_folding: config.code_folding,
        highlight_active_line: config.features.highlight_active_line,
        highlight_selection_matches: config.features.highlight_selection_matches,
        highlight_whitespace: config.features.highlight_whitespace,
        indent_on_input: config.features.indent_on_input,
        indent_with_tab: config.indent_with_tab,
        language: config.language,
        line_numbers: config.line_numbers,
        line_wrapping: config.features.line_wrapping,
        lsp_uri,
        read_only: config.features.read_only,
        rectangular_selection: config.features.rectangular_selection,
        tab_size: config.features.tab_size,
    }
}

/// The first command carries each configuration flag in the field of the same
/// name, with the mount point, asset base, document and language-server URI
/// it was given: e.g. a read-only editor is created read-only, and line
/// wrapping follows its own flag.
pub proof fn lemma_init_cmd_fields(
    config: EditorConfig,
    mount_id: Seq<char>,
    cm_base: Seq<char>,
    doc: Seq<char>,
    lsp_uri: Option<Seq<char>>,
)
    ensures
        match init_cmd_spec(config, mount_id, cm_base, doc, lsp_uri) {
            CmdView::Init { mount_id: id, cm_base: base, doc: text, lsp_uri: uri, allow_multiple_selections, bracket_matching, close_brackets, highlight_active_line, highlight_selection_matches, highlight_whitespace, indent_on_input, line_wrapping, read_only, rectangular_selection, tab_size, code_actions, code_folding, indent_with_tab, language, line_numbers } => {
            &&& id == mount_id
            &&& base == cm_base
            &&& text == doc
            &&& uri == lsp_uri
                &&& allow_multiple_selections == config.features.allow_multiple_selections
                &&& bracket_matching == config.features.bracket_matching
                &&& close_brackets == config.features.close_brackets
                &&& highlight_active_line == config.features.highlight_active_line
                &&& highlight_selection_matches == config.features.highlight_selection_matches
                &&& highlight_whitespace == config.features.highlight_whitespace
                &&& indent_on_input == config.features.indent_on_input
                &&& line_wrapping == config.features.line_wrapping
                &&& read_only == config.features.read_only
                &&& rectangular_selection == config.features.rectangular_selection
                &&& tab_size == config.features.tab_size
                &&& code_actions == config.code_actions
                &&& code_folding == config.code_folding
                &&& indent_with_tab == config.indent_with_tab
                &&& language == config.language
                &&& line_numbers == config.line_numbers
            },
            _ => false,
        },
{
}

impl EditorConfig {
    /// Builds the [`Cmd::Init`] that creates the editor.
    pub fn init_cmd(
        &self,
        mount_id: String,
        cm_base: String,
        doc: String,
        lsp_uri: Option<String>,
    ) -> (cmd: Cmd)
        ensures
            cmd@ == init_cmd_spec(*self, mount_id@, cm_base@, doc@, opt_view(lsp_uri)),
            match cmd {
                Cmd::Init { mount_id: id, cm_base: base, doc: text, lsp_uri: uri, allow_multiple_selections, bracket_matching, close_brackets, highlight_active_line, highlight_selection_matches, highlight_whitespace, indent_on_input, line_wrapping, read_only, rectangular_selection, tab_size, code_actions, code_folding, indent_with_tab, language, line_numbers } => {
                &&& id@ == mount_id@
                &&& base@ == cm_base@
                &&& text@ == doc@
                &&& opt_view(uri) == opt_view(lsp_uri)
                &&& allow_multiple_selections == self.features.allow_multiple_selections
                &&& bracket_matching == self.features.bracket_matching
                &&& close_brackets == self.features.close_brackets
                &&& highlight_active_line == self.features.highlight_active_line
                &&& highlight_selection_matches == self.features.highlight_selection_matches
                &&& highlight_whitespace == self.features.highlight_whitespace
                &&& indent_on_input == self.features.indent_on_input
                &&& line_wrapping == self.features.line_wrapping
                &&& read_only == self.features.read_only
                &&& rectangular_selection == self.features.rectangular_selection
                &&& tab_size == self.features.tab_size
                &&& code_actions == self.code_actions
                &&& code_folding == self.code_folding
                &&& indent_with_tab == self.indent_with_tab
                &&& language == self.language
                &&& line_numbers == self.line_numbers
                },
                _ => false,
            },
    {
        Cmd::Init {
            mount_id,
            cm_base,
            doc,
            allow_multiple_selections: self.features.allow_multiple_selections,
            bracket_matching: self.features.bracket_matching,
            close_brackets: self.features.close_brackets,
            code_actions: self.code_actions,
            code_folding: self.code_folding,
            highlight_active_line: self.features.highlight_active_line,
            highlight_selection_matches: self.features.highlight_selection_matches,
            highlight_whitespace: self.features.highlight_whitespace,
            indent_on_input: self.features.indent_on_input,
            indent_with_tab: self.indent_with_tab,
            language: self.language,
            line_numbers: self.line_numbers,
            line_wrapping: self.features.line_wrapping,
            lsp_uri,
            read_only: self.features.read_only,
            rectangular_selection: self.features.rectangular_selection,
            tab_size: self.features.tab_size,
        }
    }
}

/// What the editor session knows: the document text last synchronised with
/// the editor, and whether the editor has been created (its command channel
/// is live).
pub struct SessionView {
    pub doc_synced: Seq<char>,
    pub connected: bool,
}

/// The synchronisation state of one editor: the document text last exchanged
/// with the editor (used to break the edit -> value -> doc-set -> edit echo
/// loop), and whether the editor has been created.
pub struct EditorSession {
    doc_synced: String,
    connected: bool,
}

impl View for EditorSession {
    type V = SessionView;

    closed spec fn view(&self) -> SessionView {
        SessionView { doc_synced: self.doc_synced@, connected: self.connected }
    }
}

/// What the component does with an event from the editor.
pub enum EvtAction {
    /// Call the ready handler, if any.
    ReadyNotify,
    /// Write the user's new document text to the bound value.
    ValueSet(String),
    /// Hand the message to the language server; its replies go back through
    /// [`EditorSession::replies_forward`].
    ServerHandle(LspMessage),
    /// Nothing to do (an LSP message with no server attached).
    Ignore,
    /// The channel closed or could not be decoded: stop listening.
    Stop,
}

/// The session after the editor sent `evt` (`None` when the channel closed or
/// a message could not be decoded).
pub open spec fn evt_next(s: SessionView, evt: Option<EvtView>) -> SessionView {
    match evt {
        Some(EvtView::DocChanged { doc }) => SessionView { doc_synced: doc, ..s },
        _ => s,
    }
}

/// The document text to send to the editor when the bound value is `value`:
/// only a change that did not come from the editor itself, and only once the
/// editor exists.
pub open spec fn doc_set_decision(s: SessionView, value: Seq<char>) -> Option<Seq<char>> {
    if s.connected && value != s.doc_synced {
        Some(value)
    } else {
        None
    }
}

/// The session after `doc` was sent to the editor.
pub open spec fn doc_set_next(s: SessionView, doc: Seq<char>) -> SessionView {
    SessionView { doc_synced: doc, ..s }
}

/// The session once the editor has been created with document `doc`.
pub open spec fn init_next(s: SessionView, doc: Seq<char>) -> SessionView {
    SessionView { doc_synced: doc, connected: true }
}

impl EditorSession {
    /// A session for an editor that does not exist yet.
    pub fn new() -> (session: Self)
        ensures
            session@ == (SessionView { doc_synced: Seq::empty(), connected: false }),
    {
        EditorSession { doc_synced: String::new(), connected: false }
    }

    /// Records that the editor was created with document `doc` (the
    /// [`Cmd::Init`] was sent).
    pub fn init_sent(&mut self, doc: &String)
        ensures
            final(self)@ == init_next(old(self)@, doc@),
    {
        self.doc_synced = doc.clone();
        self.connected = true;
    }

    /// Decides what to do with an event from the editor (`None` when the
    /// channel closed or a message could not be decoded). `lsp_attached` says
    /// whether a language server is connected.
    pub fn evt_handle(&mut self, evt: Option<Evt>, lsp_attached: bool) -> (action: EvtAction)
        ensures
            final(self)@ == evt_next(
                old(self)@,
                match evt {
                    Some(e) => Some(e@),
                    None => None,
                },
            ),
            match evt {
                None => action is Stop,
                Some(Evt::Ready) => action is ReadyNotify,
                Some(Evt::DocChanged { doc }) => action matches EvtAction::ValueSet(v) && v@
                    == doc@,
                Some(Evt::LspMessageRecv { json }) => if lsp_attached {
                    action matches EvtAction::ServerHandle(m) && m@ == json@
                } else {
                    action is Ignore
                },
            },
    {
        match evt {
            None => EvtAction::Stop,
            Some(Evt::Ready) => EvtAction::ReadyNotify,
            Some(Evt::DocChanged { doc }) => {
                self.doc_synced = doc.clone();
                EvtAction::ValueSet(doc)
            },
            Some(Evt::LspMessageRecv { json }) => {
                if lsp_attached {
                    EvtAction::ServerHandle(LspMessage::new(json.as_str()))
                } else {
                    EvtAction::Ignore
                }
            },
        }
    }

    /// The commands forwarding a language server's replies to the editor's
    /// LSP client: one [`Cmd::LspMessageSend`] per reply, in order, each
    /// carrying the reply's text unchanged.
    pub fn replies_forward(replies: Vec<LspMessage>) -> (cmds: Vec<Cmd>)
        ensures
            cmds@.len() == replies@.len(),
            forall|i: int|
                0 <= i < replies@.len() ==> (#[trigger] cmds@[i])@ == (CmdView::LspMessageSend {
                    json: replies@[i]@,
                }),
    {
        let mut cmds: Vec<Cmd> = Vec::new();
        let mut replies = replies;
        let ghost all = replies@;
        let mut rest: Vec<LspMessage> = Vec::new();
        // Take the replies from the back, then emit them front to back.
        while replies.len() > 0
            invariant
                replies@ + rest@.reverse() == all,
            decreases replies.len(),
        {
            let m = replies.pop().unwrap();
            proof {
                assert(replies@.push(m) + rest@.reverse() =~= replies@ + rest@.push(m).reverse());
            }
            rest.push(m);
        }
        assert(rest@.reverse() =~= all);
        let ghost n = rest@.len();
        while rest.len() > 0
            invariant
                rest@.len() + cmds@.len() == n,
                n == all.len(),
                forall|j: int| 0 <= j < rest@.len() ==> rest@[j] == all[n - 1 - j],
                forall|i: int|
                    0 <= i < cmds@.len() ==> (#[trigger] cmds@[i])@ == (CmdView::LspMessageSend {
                        json: all[i]@,
                    }),
            decreases rest.len(),
        {
            let m = rest.pop().unwrap();
            cmds.push(Cmd::LspMessageSend { json: m.json_into() });
        }
        cmds
    }

    /// The command forwarding a message the language server pushed on its
    /// own: sent to the editor unchanged once the editor exists; before that
    /// the message predates the editor's LSP client and is dropped.
    pub fn pushed_forward(&self, message: LspMessage) -> (cmd: Option<Cmd>)
        ensures
            self@.connected ==> (cmd matches Some(c) && c@ == (CmdView::LspMessageSend {
                json: message@,
            })),
            !self@.connected ==> cmd is None,
    {
        if self.connected {
            Some(Cmd::LspMessageSend { json: message.json_into() })
        } else {
            None
        }
    }

    /// The command pushing the bound value `value` into the editor, if it
    /// must be pushed: see [`doc_set_decision`].
    pub fn doc_set_cmd(&self, value: &String) -> (cmd: Option<Cmd>)
        ensures
            match doc_set_decision(self@, value@) {
                Some(doc) => cmd matches Some(c) && c@ == (CmdView::DocSet { doc }),
                None => cmd is None,
            },
    {
        if self.connected && *value != self.doc_synced {
            Some(Cmd::DocSet { doc: value.clone() })
        } else {
            None
        }
    }

    /// Records that `doc` was sent to the editor.
    pub fn doc_set_sent(&mut self, doc: &String)
        ensures
            final(self)@ == doc_set_next(old(self)@, doc@),
    {
        self.doc_synced = doc.clone();
    }
}

/// Echo freedom: when the user edits the document, writing the new text to
/// the bound value never sends it back to the editor.
pub proof fn lemma_edit_not_echoed(s: SessionView, doc: Seq<char>)
    ensures
        doc_set_decision(evt_next(s, Some(EvtView::DocChanged { doc })), doc) is None,
{
}

/// A document pushed into the editor is pushed once: after it was sent, the
/// same value sends nothing more.
pub proof fn lemma_doc_set_once(s: SessionView, doc: Seq<char>)
    ensures
        doc_set_decision(doc_set_next(s, doc), doc) is None,
{
}

/// The initial document is not pushed again once the editor was created with
/// it.
pub proof fn lemma_init_doc_not_resent(s: SessionView, doc: Seq<char>)
    ensures
        doc_set_decision(init_next(s, doc), doc) is None,
{
}

/// Once the editor exists, every value change that did not come from the
/// editor reaches it, unchanged; before that, nothing is sent.
pub proof fn lemma_external_change_reaches_editor(s: SessionView, value: Seq<char>)
    ensures
        s.connected && value != s.doc_synced ==> doc_set_decision(s, value) == Some(value),
        !s.connected ==> doc_set_decision(s, value) is None,
{
}

} // verus!

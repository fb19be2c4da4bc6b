//! Windows Sandbox configuration, the XML document passed to
//! `wsb start --config`, following the `.wsb` configuration format.
use vstd::prelude::*;

use crate::wide::{decimal, decimal_u32, encode_utf16, utf16_encode};
use crate::xml::{
    compact, depth, depth_seq, escape, lemma_depth_seq_bound, lemma_models_push, pretty, xml_model, xml_models, Xml,
    XmlModel,
};

verus! {

/// A three-state option of the configuration: `Enable`, `Disable`, or the
/// Windows Sandbox default.
#[derive(Debug, Clone, Copy, PartialEq, Eq, Structural)]
pub enum OptionState {
    /// Explicitly enables the option.
    Enable,
    /// Explicitly disables the option.
    Disable,
    /// Uses the Windows Sandbox default behavior for the option.
    Default,
}

impl Default for OptionState {
    fn default() -> (res: Self)
        ensures
            res == OptionState::Default,
    {
        OptionState::Default
    }
}

impl From<bool> for OptionState {
    fn from(value: bool) -> (res: Self) {
        if value {
            OptionState::Enable
        } else {
            OptionState::Disable
        }
    }
}

impl vstd::std_specs::convert::FromSpecImpl<bool> for OptionState {
    open spec fn obeys_from_spec() -> bool {
        true
    }

    open spec fn from_spec(value: bool) -> Self {
        if value {
            OptionState::Enable
        } else {
            OptionState::Disable
        }
    }
}

/// A folder of the host mapped into the sandbox.
#[derive(Debug, Clone)]
pub struct MappedFolder {
    host_folder: Vec<u16>,
    sandbox_folder: Option<Vec<u16>>,
    read_only: Option<bool>,
}

/// What a [`MappedFolder`] holds.
pub struct MappedFolderView {
    pub host_folder: Seq<u16>,
    pub sandbox_folder: Option<Seq<u16>>,
    pub read_only: Option<bool>,
}

impl View for MappedFolder {
    type V = MappedFolderView;

    closed spec fn view(&self) -> MappedFolderView {
        MappedFolderView {
            host_folder: self.host_folder@,
            sandbox_folder: match self.sandbox_folder {
                Some(f) => Some(f@),
                None => None,
            },
            read_only: self.read_only,
        }
    }
}

/// The command of the `<LogonCommand>` section.
#[derive(Debug, Clone)]
pub struct Command(Vec<u16>);

impl View for Command {
    type V = Seq<u16>;

    closed spec fn view(&self) -> Seq<u16> {
        self.0@
    }
}

/// A sandbox configuration, built by chaining its setters.
#[derive(Debug, Clone)]
pub struct SandboxConfig {
    vgpu: Option<OptionState>,
    networking: Option<OptionState>,
    mapped_folders: Vec<MappedFolder>,
    logon_command: Option<Command>,
    audio_input: Option<OptionState>,
    video_input: Option<OptionState>,
    protected_client: Option<OptionState>,
    printer_redirection: Option<OptionState>,
    clipboard_redirection: Option<OptionState>,
    memory_in_mb: Option<u32>,
}

/// What a [`SandboxConfig`] holds.
pub struct SandboxConfigView {
    pub vgpu: Option<OptionState>,
    pub networking: Option<OptionState>,
    pub mapped_folders: Seq<MappedFolderView>,
    pub logon_command: Option<Seq<u16>>,
    pub audio_input: Option<OptionState>,
    pub video_input: Option<OptionState>,
    pub protected_client: Option<OptionState>,
    pub printer_redirection: Option<OptionState>,
    pub clipboard_redirection: Option<OptionState>,
    pub memory_in_mb: Option<u32>,
}

/// The view of each folder of `folders`.
pub open spec fn folder_views(folders: Seq<MappedFolder>) -> Seq<MappedFolderView> {
    folders.map_values(|f: MappedFolder| f@)
}

impl View for SandboxConfig {
    type V = SandboxConfigView;

    closed spec fn view(&self) -> SandboxConfigView {
        SandboxConfigView {
            vgpu: self.vgpu,
            networking: self.networking,
            mapped_folders: folder_views(self.mapped_folders@),
            logon_command: match self.logon_command {
                Some(c) => Some(c@),
                None => None,
            },
            audio_input: self.audio_input,
            video_input: self.video_input,
            protected_client: self.protected_client,
            printer_redirection: self.printer_redirection,
            clipboard_redirection: self.clipboard_redirection,
            memory_in_mb: self.memory_in_mb,
        }
    }
}

/// The configuration with nothing set.
pub open spec fn empty_config() -> SandboxConfigView {
    SandboxConfigView {
        vgpu: None,
        networking: None,
        mapped_folders: seq![],
        logon_command: None,
        audio_input: None,
        video_input: None,
        protected_client: None,
        printer_redirection: None,
        clipboard_redirection: None,
        memory_in_mb: None,
    }
}

/// The mapping of the host folder `host_folder` with nothing else set.
pub open spec fn new_folder(host_folder: Seq<u16>) -> MappedFolderView {
    MappedFolderView { host_folder, sandbox_folder: None, read_only: None }
}

/// One call of a setter of [`MappedFolder`], with its argument.
pub enum FolderSetting {
    SandboxFolder(Seq<u16>),
    ReadOnly(bool),
}

/// The mapping after one setter call, which replaces the value set before.
pub open spec fn apply_folder_setting(f: MappedFolderView, s: FolderSetting) -> MappedFolderView {
    match s {
        FolderSetting::SandboxFolder(d) => MappedFolderView { sandbox_folder: Some(d), ..f },
        FolderSetting::ReadOnly(r) => MappedFolderView { read_only: Some(r), ..f },
    }
}

/// The mapping after the setter calls `ss`, in order.
pub open spec fn apply_folder_settings(f: MappedFolderView, ss: Seq<FolderSetting>) -> MappedFolderView
    decreases ss.len(),
{
    if ss.len() == 0 {
        f
    } else {
        apply_folder_setting(apply_folder_settings(f, ss.drop_last()), ss.last())
    }
}

/// One call of a setter of [`SandboxConfig`], with its argument.
pub enum ConfigSetting {
    Vgpu(OptionState),
    Networking(OptionState),
    MappedFolder(MappedFolderView),
    LogonCommand(Seq<u16>),
    AudioInput(OptionState),
    VideoInput(OptionState),
    ProtectedClient(OptionState),
    PrinterRedirection(OptionState),
    ClipboardRedirection(OptionState),
    MemoryInMb(u32),
}

/// Which setting a call sets, numbered in the order in which the format
/// lists the elements.
pub open spec fn setting_kind(s: ConfigSetting) -> int {
    match s {
        ConfigSetting::Vgpu(_) => 0,
        ConfigSetting::Networking(_) => 1,
        ConfigSetting::MappedFolder(_) => 2,
        ConfigSetting::LogonCommand(_) => 3,
        ConfigSetting::AudioInput(_) => 4,
        ConfigSetting::VideoInput(_) => 5,
        ConfigSetting::ProtectedClient(_) => 6,
        ConfigSetting::PrinterRedirection(_) => 7,
        ConfigSetting::ClipboardRedirection(_) => 8,
        ConfigSetting::MemoryInMb(_) => 9,
    }
}

/// The configuration after one setter call: a mapped folder is added after
/// the others, every other setting replaces the value set before.
pub open spec fn apply_setting(c: SandboxConfigView, s: ConfigSetting) -> SandboxConfigView {
    match s {
        ConfigSetting::Vgpu(v) => SandboxConfigView { vgpu: Some(v), ..c },
        ConfigSetting::Networking(v) => SandboxConfigView { networking: Some(v), ..c },
        ConfigSetting::MappedFolder(f) => SandboxConfigView {
            mapped_folders: c.mapped_folders.push(f),
            ..c
        },
        ConfigSetting::LogonCommand(v) => SandboxConfigView { logon_command: Some(v), ..c },
        ConfigSetting::AudioInput(v) => SandboxConfigView { audio_input: Some(v), ..c },
        ConfigSetting::VideoInput(v) => SandboxConfigView { video_input: Some(v), ..c },
        ConfigSetting::ProtectedClient(v) => SandboxConfigView { protected_client: Some(v), ..c },
        ConfigSetting::PrinterRedirection(v) => SandboxConfigView {
            printer_redirection: Some(v),
            ..c
        },
        ConfigSetting::ClipboardRedirection(v) => SandboxConfigView {
            clipboard_redirection: Some(v),
            ..c
        },
        ConfigSetting::MemoryInMb(v) => SandboxConfigView { memory_in_mb: Some(v), ..c },
    }
}

/// The configuration after the setter calls `ss`, in order.
pub open spec fn apply_settings(c: SandboxConfigView, ss: Seq<ConfigSetting>) -> SandboxConfigView
    decreases ss.len(),
{
    if ss.len() == 0 {
        c
    } else {
        apply_setting(apply_settings(c, ss.drop_last()), ss.last())
    }
}

/// The text that stands for an option state in the configuration.
pub open spec fn state_text(s: OptionState) -> Seq<u16> {
    match s {
        OptionState::Enable => utf16_encode("Enable"@),
        OptionState::Disable => utf16_encode("Disable"@),
        OptionState::Default => utf16_encode("Default"@),
    }
}

/// An element called `name` whose only child is `text`, escaped.
pub open spec fn text_element(name: Seq<char>, text: Seq<u16>) -> XmlModel {
    XmlModel::Element {
        name: utf16_encode(name),
        content: seq![XmlModel::Text(escape(text))],
    }
}

/// The element for an option that is set, and nothing for one that is not.
pub open spec fn option_elements(name: Seq<char>, state: Option<OptionState>) -> Seq<XmlModel> {
    match state {
        Some(s) => seq![text_element(name, state_text(s))],
        None => seq![],
    }
}

/// The `<MappedFolder>` element of a mapped folder: the host folder, then
/// the sandbox folder and the read-only flag where they are set.
pub open spec fn folder_xml(f: MappedFolderView) -> XmlModel {
    XmlModel::Element {
        name: utf16_encode("MappedFolder"@),
        content: seq![text_element("HostFolder"@, f.host_folder)] + match f.sandbox_folder {
            Some(sf) => seq![text_element("SandboxFolder"@, sf)],
            None => seq![],
        } + match f.read_only {
            Some(true) => seq![text_element("ReadOnly"@, utf16_encode("true"@))],
            Some(false) => seq![text_element("ReadOnly"@, utf16_encode("false"@))],
            None => seq![],
        },
    }
}

/// The `<MappedFolders>` element, present only when there are mapped folders.
pub open spec fn folders_elements(folders: Seq<MappedFolderView>) -> Seq<XmlModel> {
    if folders.len() == 0 {
        seq![]
    } else {
        seq![
            XmlModel::Element {
                name: utf16_encode("MappedFolders"@),
                content: folders.map_values(|f: MappedFolderView| folder_xml(f)),
            },
        ]
    }
}

/// The `<LogonCommand>` element, present only when a command is set.
pub open spec fn logon_elements(command: Option<Seq<u16>>) -> Seq<XmlModel> {
    match command {
        Some(c) => seq![
            XmlModel::Element {
                name: utf16_encode("LogonCommand"@),
                content: seq![text_element("Command"@, c)],
            },
        ],
        None => seq![],
    }
}

/// The `<MemoryInMB>` element, present only when the memory is set.
pub open spec fn memory_elements(mb: Option<u32>) -> Seq<XmlModel> {
    match mb {
        Some(n) => seq![text_element("MemoryInMB"@, decimal(n as nat))],
        None => seq![],
    }
}

/// The children of `<Configuration>`, in the order the format lists them;
/// a setting that is not set has no element.
pub open spec fn config_children(c: SandboxConfigView) -> Seq<XmlModel> {
    option_elements("vGPU"@, c.vgpu) + option_elements("Networking"@, c.networking)
        + folders_elements(c.mapped_folders) + logon_elements(c.logon_command) + option_elements(
        "AudioInput"@,
        c.audio_input,
    ) + option_elements("VideoInput"@, c.video_input) + option_elements(
        "ProtectedClient"@,
        c.protected_client,
    ) + option_elements("PrinterRedirection"@, c.printer_redirection) + option_elements(
        "ClipboardRedirection"@,
        c.clipboard_redirection,
    ) + memory_elements(c.memory_in_mb)
}

/// The configuration document.
pub open spec fn config_xml(c: SandboxConfigView) -> XmlModel {
    XmlModel::Element { name: utf16_encode("Configuration"@), content: config_children(c) }
}

proof fn lemma_models_single(x: Xml)
    ensures
        xml_models(seq![x]) == seq![xml_model(x)],
{
    lemma_models_push(seq![], x);
    assert(Seq::<Xml>::empty().push(x) =~= seq![x]);
    assert(xml_models(Seq::<Xml>::empty()) =~= Seq::<XmlModel>::empty());
}

fn text_element_xml(name: &str, text: &[u16]) -> (res: Xml)
    ensures
        res@ == text_element(name@, text@),
{
    let mut content: Vec<Xml> = Vec::new();
    let t = Xml::text(text);
    content.push(t);
    proof {
        assert(content@ =~= seq![t]);
        lemma_models_single(t);
    }
    Xml::element(encode_utf16(name), content)
}

fn push_model(content: &mut Vec<Xml>, x: Xml)
    ensures
        xml_models(final(content)@) == xml_models(old(content)@).push(x@),
{
    proof {
        lemma_models_push(content@, x);
    }
    content.push(x);
}

fn push_option(content: &mut Vec<Xml>, name: &str, state: Option<OptionState>)
    ensures
        xml_models(final(content)@) == xml_models(old(content)@) + option_elements(name@, state),
{
    let ghost before = xml_models(content@);
    match state {
        Some(s) => {
            let text = s.to_units();
            push_model(content, text_element_xml(name, text.as_slice()));
            assert(xml_models(content@) =~= before + option_elements(name@, state));
        },
        None => {
            assert(before + option_elements(name@, state) =~= before);
        },
    }
}

impl OptionState {
    /// The text that stands for this state in the configuration.
    fn to_units(&self) -> (res: Vec<u16>)
        ensures
            res@ == state_text(*self),
    {
        match self {
            OptionState::Enable => encode_utf16("Enable"),
            OptionState::Disable => encode_utf16("Disable"),
            OptionState::Default => encode_utf16("Default"),
        }
    }

    /// The text node of this state.
    pub fn to_xml(&self) -> (res: Xml)
        ensures
            res@ == XmlModel::Text(escape(state_text(*self))),
    {
        let units = self.to_units();
        Xml::text(units.as_slice())
    }
}

impl MappedFolder {
    /// A mapping of the host folder `host_folder` into the sandbox, with no
    /// sandbox folder (Windows Sandbox then picks the destination) and no
    /// read-only flag.
    pub fn new(host_folder: Vec<u16>) -> (res: Self)
        ensures
            res@ == new_folder(host_folder@),
    {
        MappedFolder { host_folder, sandbox_folder: None, read_only: None }
    }

    /// Sets the destination folder inside the sandbox.
    pub fn sandbox_folder(self, folder: Vec<u16>) -> (res: Self)
        ensures
            res@ == apply_folder_setting(self@, FolderSetting::SandboxFolder(folder@)),
    {
        MappedFolder { sandbox_folder: Some(folder), ..self }
    }

    /// Sets whether the folder is read-only inside the sandbox.
    pub fn read_only(self, read_only: bool) -> (res: Self)
        ensures
            res@ == apply_folder_setting(self@, FolderSetting::ReadOnly(read_only)),
    {
        MappedFolder { read_only: Some(read_only), ..self }
    }

    /// The `<MappedFolder>` element of this mapping.
    pub fn to_xml(&self) -> (res: Xml)
        ensures
            res@ == folder_xml(self@),
    {
        let mut content: Vec<Xml> = Vec::new();
        push_model(&mut content, text_element_xml("HostFolder", self.host_folder.as_slice()));
        assert(xml_models(Seq::<Xml>::empty()) =~= Seq::<XmlModel>::empty());
        match &self.sandbox_folder {
            Some(sf) => {
                push_model(&mut content, text_element_xml("SandboxFolder", sf.as_slice()));
            },
            None => {},
        }
        match self.read_only {
            Some(ro) => {
                let text = if ro {
                    encode_utf16("true")
                } else {
                    encode_utf16("false")
                };
                push_model(&mut content, text_element_xml("ReadOnly", text.as_slice()));
            },
            None => {},
        }
        let res = Xml::element(encode_utf16("MappedFolder"), content);
        assert(xml_models(content@) =~= (folder_xml(self@)->Element_content));
        res
    }
}

impl Command {
    /// A command for [`SandboxConfig::logon_command`].
    pub fn new(command: Vec<u16>) -> (res: Self)
        ensures
            res@ == command@,
    {
        Command(command)
    }

    /// The `<Command>` element of this command.
    pub fn to_xml(&self) -> (res: Xml)
        ensures
            res@ == text_element("Command"@, self@),
    {
        text_element_xml("Command", self.0.as_slice())
    }
}

proof fn lemma_text_element_depth(name: Seq<char>, text: Seq<u16>)
    ensures
        depth(text_element(name, text)) == 1,
{
    let cs = seq![XmlModel::Text(escape(text))];
    assert(cs.drop_last() =~= Seq::<XmlModel>::empty());
    assert(depth_seq(Seq::<XmlModel>::empty()) == 0);
    assert(depth(cs.last()) == 0);
    assert(depth_seq(cs) == 0);
}

spec fn depths_within(cs: Seq<XmlModel>, k: nat) -> bool {
    forall|i: int| 0 <= i < cs.len() ==> depth(#[trigger] cs[i]) <= k
}

proof fn lemma_depths_concat(a: Seq<XmlModel>, b: Seq<XmlModel>, k: nat)
    requires
        depths_within(a, k),
        depths_within(b, k),
    ensures
        depths_within(a + b, k),
{
    assert forall|i: int| 0 <= i < (a + b).len() implies depth(#[trigger] (a + b)[i]) <= k by {
        if i < a.len() {
            assert((a + b)[i] == a[i]);
        } else {
            assert((a + b)[i] == b[i - a.len()]);
        }
    }
}

proof fn lemma_depths_single(m: XmlModel, k: nat)
    requires
        depth(m) <= k,
    ensures
        depths_within(seq![m], k),
{
}

proof fn lemma_option_depth(name: Seq<char>, state: Option<OptionState>)
    ensures
        depths_within(option_elements(name, state), 3),
{
    if let Some(st) = state {
        lemma_text_element_depth(name, state_text(st));
        lemma_depths_single(text_element(name, state_text(st)), 3);
    }
}

proof fn lemma_folder_depth(f: MappedFolderView)
    ensures
        depth(folder_xml(f)) <= 2,
{
    let content = folder_xml(f)->Element_content;
    lemma_text_element_depth("HostFolder"@, f.host_folder);
    lemma_depths_single(text_element("HostFolder"@, f.host_folder), 1);
    let a = seq![text_element("HostFolder"@, f.host_folder)];
    let b = match f.sandbox_folder {
        Some(sf) => seq![text_element("SandboxFolder"@, sf)],
        None => seq![],
    };
    let c = match f.read_only {
        Some(true) => seq![text_element("ReadOnly"@, utf16_encode("true"@))],
        Some(false) => seq![text_element("ReadOnly"@, utf16_encode("false"@))],
        None => seq![],
    };
    if let Some(sf) = f.sandbox_folder {
        lemma_text_element_depth("SandboxFolder"@, sf);
        lemma_depths_single(text_element("SandboxFolder"@, sf), 1);
    }
    lemma_text_element_depth("ReadOnly"@, utf16_encode("true"@));
    lemma_text_element_depth("ReadOnly"@, utf16_encode("false"@));
    lemma_depths_concat(a, b, 1);
    lemma_depths_concat(a + b, c, 1);
    assert(content == a + b + c);
    lemma_depth_seq_bound(content, 1);
}

proof fn lemma_folders_depth(folders: Seq<MappedFolderView>)
    ensures
        depths_within(folders_elements(folders), 3),
{
    if folders.len() > 0 {
        let xs = folders.map_values(|f: MappedFolderView| folder_xml(f));
        assert forall|i: int| 0 <= i < xs.len() implies depth(#[trigger] xs[i]) <= 2 by {
            lemma_folder_depth(folders[i]);
        }
        lemma_depth_seq_bound(xs, 2);
    }
}

proof fn lemma_config_depth(c: SandboxConfigView)
    ensures
        depth(config_xml(c)) <= 4,
{
    lemma_option_depth("vGPU"@, c.vgpu);
    lemma_option_depth("Networking"@, c.networking);
    lemma_folders_depth(c.mapped_folders);
    if let Some(cmd) = c.logon_command {
        lemma_text_element_depth("Command"@, cmd);
        lemma_depth_seq_bound(seq![text_element("Command"@, cmd)], 1);
    }
    lemma_option_depth("AudioInput"@, c.audio_input);
    lemma_option_depth("VideoInput"@, c.video_input);
    lemma_option_depth("ProtectedClient"@, c.protected_client);
    lemma_option_depth("PrinterRedirection"@, c.printer_redirection);
    lemma_option_depth("ClipboardRedirection"@, c.clipboard_redirection);
    if let Some(mb) = c.memory_in_mb {
        lemma_text_element_depth("MemoryInMB"@, decimal(mb as nat));
    }
    let p1 = option_elements("vGPU"@, c.vgpu);
    let p2 = option_elements("Networking"@, c.networking);
    let p3 = folders_elements(c.mapped_folders);
    let p4 = logon_elements(c.logon_command);
    let p5 = option_elements("AudioInput"@, c.audio_input);
    let p6 = option_elements("VideoInput"@, c.video_input);
    let p7 = option_elements("ProtectedClient"@, c.protected_client);
    let p8 = option_elements("PrinterRedirection"@, c.printer_redirection);
    let p9 = option_elements("ClipboardRedirection"@, c.clipboard_redirection);
    let p10 = memory_elements(c.memory_in_mb);
    lemma_depths_concat(p1, p2, 3);
    lemma_depths_concat(p1 + p2, p3, 3);
    lemma_depths_concat(p1 + p2 + p3, p4, 3);
    lemma_depths_concat(p1 + p2 + p3 + p4, p5, 3);
    lemma_depths_concat(p1 + p2 + p3 + p4 + p5, p6, 3);
    lemma_depths_concat(p1 + p2 + p3 + p4 + p5 + p6, p7, 3);
    lemma_depths_concat(p1 + p2 + p3 + p4 + p5 + p6 + p7, p8, 3);
    lemma_depths_concat(p1 + p2 + p3 + p4 + p5 + p6 + p7 + p8, p9, 3);
    lemma_depths_concat(p1 + p2 + p3 + p4 + p5 + p6 + p7 + p8 + p9, p10, 3);
    lemma_depth_seq_bound(config_children(c), 3);
}

impl Default for SandboxConfig {
    fn default() -> (res: Self)
        ensures
            res@ == empty_config(),
    {
        let res = SandboxConfig {
            vgpu: None,
            networking: None,
            mapped_folders: Vec::new(),
            logon_command: None,
            audio_input: None,
            video_input: None,
            protected_client: None,
            printer_redirection: None,
            clipboard_redirection: None,
            memory_in_mb: None,
        };
        assert(folder_views(res.mapped_folders@) =~= Seq::<MappedFolderView>::empty());
        assert(res@ =~= empty_config());
        res
    }
}

proof fn lemma_folder_views_push(folders: Seq<MappedFolder>, f: MappedFolder)
    ensures
        folder_views(folders.push(f)) == folder_views(folders).push(f@),
{
    assert(folder_views(folders.push(f)) =~= folder_views(folders).push(f@));
}

/// `c` with `vgpu` set to `state`.
pub closed spec fn with_vgpu(c: SandboxConfig, state: OptionState) -> SandboxConfig {
    SandboxConfig { vgpu: Some(state), ..c }
}

/// `c` with `networking` set to `state`.
pub closed spec fn with_networking(c: SandboxConfig, state: OptionState) -> SandboxConfig {
    SandboxConfig { networking: Some(state), ..c }
}

/// `c` with `logon_command` set to `command`.
pub closed spec fn with_logon_command(c: SandboxConfig, command: Command) -> SandboxConfig {
    SandboxConfig { logon_command: Some(command), ..c }
}

/// `c` with `audio_input` set to `state`.
pub closed spec fn with_audio_input(c: SandboxConfig, state: OptionState) -> SandboxConfig {
    SandboxConfig { audio_input: Some(state), ..c }
}

/// `c` with `video_input` set to `state`.
pub closed spec fn with_video_input(c: SandboxConfig, state: OptionState) -> SandboxConfig {
    SandboxConfig { video_input: Some(state), ..c }
}

/// `c` with `protected_client` set to `state`.
pub closed spec fn with_protected_client(c: SandboxConfig, state: OptionState) -> SandboxConfig {
    SandboxConfig { protected_client: Some(state), ..c }
}

/// `c` with `printer_redirection` set to `state`.
pub closed spec fn with_printer_redirection(c: SandboxConfig, state: OptionState) -> SandboxConfig {
    SandboxConfig { printer_redirection: Some(state), ..c }
}

/// `c` with `clipboard_redirection` set to `state`.
pub closed spec fn with_clipboard_redirection(c: SandboxConfig, state: OptionState) -> SandboxConfig {
    SandboxConfig { clipboard_redirection: Some(state), ..c }
}

/// `c` with `memory_in_mb` set to `mb`.
pub closed spec fn with_memory_in_mb(c: SandboxConfig, mb: u32) -> SandboxConfig {
    SandboxConfig { memory_in_mb: Some(mb), ..c }
}

/// Setting a value again replaces the value set before.
pub proof fn law_setters_replace(
    c: SandboxConfig,
    s1: OptionState,
    s2: OptionState,
    a: Command,
    b: Command,
    m1: u32,
    m2: u32,
)
    ensures
        c.vgpu(s1).vgpu(s2) == c.vgpu(s2),
        c.networking(s1).networking(s2) == c.networking(s2),
        c.logon_command(a).logon_command(b) == c.logon_command(b),
        c.audio_input(s1).audio_input(s2) == c.audio_input(s2),
        c.video_input(s1).video_input(s2) == c.video_input(s2),
        c.protected_client(s1).protected_client(s2) == c.protected_client(s2),
        c.printer_redirection(s1).printer_redirection(s2) == c.printer_redirection(s2),
        c.clipboard_redirection(s1).clipboard_redirection(s2) == c.clipboard_redirection(s2),
        c.memory_in_mb(m1).memory_in_mb(m2) == c.memory_in_mb(m2),
{
}

impl SandboxConfig {
    /// A configuration with nothing set.
    pub fn new() -> (res: Self)
        ensures
            res@ == empty_config(),
    {
        Self::default()
    }

    /// Sets the `vGPU` option.
    #[verifier::allow_in_spec]
    pub fn vgpu(self, state: OptionState) -> (res: Self)
        ensures
            res@ == apply_setting(self@, ConfigSetting::Vgpu(state)),
        returns
            with_vgpu(self, state),
    {
        SandboxConfig { vgpu: Some(state), ..self }
    }

    /// Sets the `Networking` option.
    #[verifier::allow_in_spec]
    pub fn networking(self, state: OptionState) -> (res: Self)
        ensures
            res@ == apply_setting(self@, ConfigSetting::Networking(state)),
        returns
            with_networking(self, state),
    {
        SandboxConfig { networking: Some(state), ..self }
    }

    /// Adds a mapped folder after those already added.
    pub fn mapped_folder(self, folder: MappedFolder) -> (res: Self)
        ensures
            res@ == apply_setting(self@, ConfigSetting::MappedFolder(folder@)),
    {
        let mut s = self;
        proof {
            lemma_folder_views_push(s.mapped_folders@, folder);
        }
        s.mapped_folders.push(folder);
        s
    }

    /// Sets the command run after the sandbox logs on, replacing any set
    /// before.
    #[verifier::allow_in_spec]
    pub fn logon_command(self, command: Command) -> (res: Self)
        ensures
            res@ == apply_setting(self@, ConfigSetting::LogonCommand(command@)),
        returns
            with_logon_command(self, command),
    {
        SandboxConfig { logon_command: Some(command), ..self }
    }

    /// Sets the `AudioInput` option.
    #[verifier::allow_in_spec]
    pub fn audio_input(self, state: OptionState) -> (res: Self)
        ensures
            res@ == apply_setting(self@, ConfigSetting::AudioInput(state)),
        returns
            with_audio_input(self, state),
    {
        SandboxConfig { audio_input: Some(state), ..self }
    }

    /// Sets the `VideoInput` option.
    #[verifier::allow_in_spec]
    pub fn video_input(self, state: OptionState) -> (res: Self)
        ensures
            res@ == apply_setting(self@, ConfigSetting::VideoInput(state)),
        returns
            with_video_input(self, state),
    {
        SandboxConfig { video_input: Some(state), ..self }
    }

    /// Sets the `ProtectedClient` option.
    #[verifier::allow_in_spec]
    pub fn protected_client(self, state: OptionState) -> (res: Self)
        ensures
            res@ == apply_setting(self@, ConfigSetting::ProtectedClient(state)),
        returns
            with_protected_client(self, state),
    {
        SandboxConfig { protected_client: Some(state), ..self }
    }

    /// Sets the `PrinterRedirection` option.
    #[verifier::allow_in_spec]
    pub fn printer_redirection(self, state: OptionState) -> (res: Self)
        ensures
            res@ == apply_setting(self@, ConfigSetting::PrinterRedirection(state)),
        returns
            with_printer_redirection(self, state),
    {
        SandboxConfig { printer_redirection: Some(state), ..self }
    }

    /// Sets the `ClipboardRedirection` option.
    #[verifier::allow_in_spec]
    pub fn clipboard_redirection(self, state: OptionState) -> (res: Self)
        ensures
            res@ == apply_setting(self@, ConfigSetting::ClipboardRedirection(state)),
        returns
            with_clipboard_redirection(self, state),
    {
        SandboxConfig { clipboard_redirection: Some(state), ..self }
    }

    /// Sets the `MemoryInMB` value.
    #[verifier::allow_in_spec]
    pub fn memory_in_mb(self, mb: u32) -> (res: Self)
        ensures
            res@ == apply_setting(self@, ConfigSetting::MemoryInMb(mb)),
        returns
            with_memory_in_mb(self, mb),
    {
        SandboxConfig { memory_in_mb: Some(mb), ..self }
    }

    /// The configuration document as an XML tree.
    pub fn to_xml(&self) -> (res: Xml)
        ensures
            res@ == config_xml(self@),
    {
        let mut content: Vec<Xml> = Vec::new();
        let ghost c = self@;
        assert(xml_models(content@) =~= Seq::<XmlModel>::empty());
        push_option(&mut content, "vGPU", self.vgpu);
        push_option(&mut content, "Networking", self.networking);
        let ghost after_options = xml_models(content@);
        if self.mapped_folders.len() > 0 {
            let mut folders: Vec<Xml> = Vec::new();
            let n = self.mapped_folders.len();
            let mut i: usize = 0;
            assert(xml_models(folders@) =~= Seq::<XmlModel>::empty());
            while i < n
                invariant
                    n == self.mapped_folders@.len(),
                    i <= n,
                    xml_models(folders@) =~= folder_views(self.mapped_folders@).take(
                        i as int,
                    ).map_values(|f: MappedFolderView| folder_xml(f)),
                decreases n - i,
            {
                let x = self.mapped_folders[i].to_xml();
                push_model(&mut folders, x);
                i = i + 1;
            }
            assert(folder_views(self.mapped_folders@).take(n as int) =~= folder_views(
                self.mapped_folders@,
            ));
            push_model(&mut content, Xml::element(encode_utf16("MappedFolders"), folders));
        }
        assert(xml_models(content@) =~= after_options + folders_elements(c.mapped_folders));
        let ghost after_folders = xml_models(content@);
        match &self.logon_command {
            Some(command) => {
                let mut inner: Vec<Xml> = Vec::new();
                let x = command.to_xml();
                inner.push(x);
                proof {
                    assert(inner@ =~= seq![x]);
                    lemma_models_single(x);
                }
                push_model(&mut content, Xml::element(encode_utf16("LogonCommand"), inner));
            },
            None => {},
        }
        assert(xml_models(content@) =~= after_folders + logon_elements(c.logon_command));
        push_option(&mut content, "AudioInput", self.audio_input);
        push_option(&mut content, "VideoInput", self.video_input);
        push_option(&mut content, "ProtectedClient", self.protected_client);
        push_option(&mut content, "PrinterRedirection", self.printer_redirection);
        push_option(&mut content, "ClipboardRedirection", self.clipboard_redirection);
        let ghost after_redirection = xml_models(content@);
        match self.memory_in_mb {
            Some(mb) => {
                let digits = decimal_u32(mb);
                push_model(&mut content, text_element_xml("MemoryInMB", digits.as_slice()));
            },
            None => {},
        }
        assert(xml_models(content@) =~= after_redirection + memory_elements(c.memory_in_mb));
        assert(xml_models(content@) =~= config_children(c));
        Xml::element(encode_utf16("Configuration"), content)
    }

    /// The configuration as compact XML.
    pub fn to_os_string(&self) -> (res: Vec<u16>)
        ensures
            res@ == compact(config_xml(self@)),
    {
        self.to_xml().to_os_string()
    }

    /// The configuration as XML with one element per line, indented by two
    /// spaces per nesting level.
    pub fn to_pretty_os_string(&self) -> (res: Vec<u16>)
        ensures
            res@ == pretty(config_xml(self@), 0),
    {
        let x = self.to_xml();
        proof {
            lemma_config_depth(self@);
        }
        x.to_pretty_os_string()
    }
}

} // verus!

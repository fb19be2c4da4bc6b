//! Laws of the configuration builder and of the document it produces.
use vstd::prelude::*;

use crate::config::{
    apply_folder_settings, apply_setting, apply_settings, config_children, config_xml,
    empty_config, folder_xml, folders_elements, logon_elements, memory_elements, new_folder,
    option_elements, setting_kind, state_text, text_element, ConfigSetting, FolderSetting,
    MappedFolderView, OptionState, SandboxConfigView,
};
use crate::wide::{decimal, lemma_utf16_bmp, utf16_encode};
use crate::xml::{
    compact, escape, lemma_escape_no_markup, lemma_unescape_escape, pretty, unescape, XmlModel,
    APOS, GT, LT, QUOT,
};

verus! {

/// Setter calls of two different settings commute: the configuration, and
/// so its compact and pretty XML, do not depend on their order.
pub proof fn law_settings_commute(c: SandboxConfigView, s1: ConfigSetting, s2: ConfigSetting)
    requires
        setting_kind(s1) != setting_kind(s2),
    ensures
        apply_setting(apply_setting(c, s1), s2) == apply_setting(apply_setting(c, s2), s1),
        compact(config_xml(apply_setting(apply_setting(c, s1), s2))) == compact(
            config_xml(apply_setting(apply_setting(c, s2), s1)),
        ),
        pretty(config_xml(apply_setting(apply_setting(c, s1), s2)), 0) == pretty(
            config_xml(apply_setting(apply_setting(c, s2), s1)),
            0,
        ),
{
}

/// A second call of the same setter replaces the value of the first, except
/// for mapped folders, which accumulate.
pub proof fn law_setting_replaces(c: SandboxConfigView, s1: ConfigSetting, s2: ConfigSetting)
    requires
        setting_kind(s1) == setting_kind(s2),
        !(s1 is MappedFolder),
    ensures
        apply_setting(apply_setting(c, s1), s2) == apply_setting(c, s2),
{
}

/// Whether a setter of the setting numbered `k` is among the calls `ss`.
pub open spec fn called(ss: Seq<ConfigSetting>, k: int) -> bool {
    exists|i: int| 0 <= i < ss.len() && setting_kind(#[trigger] ss[i]) == k
}

/// The folders that the calls `ss` map, in call order, repeats kept.
pub open spec fn folders_of(ss: Seq<ConfigSetting>) -> Seq<MappedFolderView>
    decreases ss.len(),
{
    if ss.len() == 0 {
        seq![]
    } else {
        match ss.last() {
            ConfigSetting::MappedFolder(f) => folders_of(ss.drop_last()).push(f),
            _ => folders_of(ss.drop_last()),
        }
    }
}

/// The name of an element; text has none.
pub open spec fn element_name(m: XmlModel) -> Seq<u16> {
    match m {
        XmlModel::Element { name, content } => name,
        XmlModel::Text(_) => seq![],
    }
}

/// The names of the nodes `cs`, in order.
pub open spec fn child_names(cs: Seq<XmlModel>) -> Seq<Seq<u16>> {
    cs.map_values(|m: XmlModel| element_name(m))
}

/// `name` where `present` holds, and nothing otherwise.
pub open spec fn named_if(present: bool, name: Seq<char>) -> Seq<Seq<u16>> {
    if present {
        seq![utf16_encode(name)]
    } else {
        seq![]
    }
}

/// The element names of the configuration made by the calls `ss`: the
/// format's list of elements, kept where a setter of that element was called.
pub open spec fn setting_names(ss: Seq<ConfigSetting>) -> Seq<Seq<u16>> {
    named_if(called(ss, 0), "vGPU"@) + named_if(called(ss, 1), "Networking"@) + named_if(
        called(ss, 2),
        "MappedFolders"@,
    ) + named_if(called(ss, 3), "LogonCommand"@) + named_if(called(ss, 4), "AudioInput"@)
        + named_if(called(ss, 5), "VideoInput"@) + named_if(called(ss, 6), "ProtectedClient"@)
        + named_if(called(ss, 7), "PrinterRedirection"@) + named_if(
        called(ss, 8),
        "ClipboardRedirection"@,
    ) + named_if(called(ss, 9), "MemoryInMB"@)
}

proof fn lemma_called_push(ss: Seq<ConfigSetting>, x: ConfigSetting, k: int)
    ensures
        called(ss.push(x), k) == (called(ss, k) || setting_kind(x) == k),
{
    let t = ss.push(x);
    if called(t, k) {
        let i = choose|i: int| 0 <= i < t.len() && setting_kind(#[trigger] t[i]) == k;
        if i < ss.len() {
            assert(t[i] == ss[i]);
        }
    }
    if called(ss, k) {
        let i = choose|i: int| 0 <= i < ss.len() && setting_kind(#[trigger] ss[i]) == k;
        assert(t[i] == ss[i]);
    }
    if setting_kind(x) == k {
        assert(t[ss.len() as int] == x);
    }
}

proof fn lemma_settings_fields(ss: Seq<ConfigSetting>)
    ensures
        ({
            let c = apply_settings(empty_config(), ss);
            &&& c.vgpu is Some <==> called(ss, 0)
            &&& c.networking is Some <==> called(ss, 1)
            &&& c.mapped_folders == folders_of(ss)
            &&& folders_of(ss).len() > 0 <==> called(ss, 2)
            &&& c.logon_command is Some <==> called(ss, 3)
            &&& c.audio_input is Some <==> called(ss, 4)
            &&& c.video_input is Some <==> called(ss, 5)
            &&& c.protected_client is Some <==> called(ss, 6)
            &&& c.printer_redirection is Some <==> called(ss, 7)
            &&& c.clipboard_redirection is Some <==> called(ss, 8)
            &&& c.memory_in_mb is Some <==> called(ss, 9)
        }),
    decreases ss.len(),
{
    if ss.len() == 0 {
        assert forall|k: int| !called(ss, k) by {}
    } else {
        let p = ss.drop_last();
        let x = ss.last();
        lemma_settings_fields(p);
        assert(p.push(x) =~= ss);
        assert forall|k: int| called(ss, k) == (called(p, k) || setting_kind(x) == k) by {
            lemma_called_push(p, x, k);
        }
    }
}

proof fn lemma_names_concat(a: Seq<XmlModel>, b: Seq<XmlModel>)
    ensures
        child_names(a + b) == child_names(a) + child_names(b),
{
    assert(child_names(a + b) =~= child_names(a) + child_names(b));
}

proof fn lemma_option_names(name: Seq<char>, state: Option<OptionState>)
    ensures
        child_names(option_elements(name, state)) == named_if(state is Some, name),
{
    assert(child_names(option_elements(name, state)) =~= named_if(state is Some, name));
}

/// The configuration made from an empty one by any setter calls `ss`, in any
/// order: its element names follow the format's fixed order, one element for
/// each setting that was set and none for the others; its mapped folders are
/// the folders of the calls in call order, repeats kept, all under a single
/// `<MappedFolders>` element that is present only when a folder was mapped.
pub proof fn law_config_from_settings(ss: Seq<ConfigSetting>)
    ensures
        ({
            let c = apply_settings(empty_config(), ss);
            &&& config_xml(c) == (XmlModel::Element {
                name: utf16_encode("Configuration"@),
                content: config_children(c),
            })
            &&& child_names(config_children(c)) == setting_names(ss)
            &&& c.mapped_folders == folders_of(ss)
            &&& folders_elements(c.mapped_folders) == if folders_of(ss).len() == 0 {
                Seq::<XmlModel>::empty()
            } else {
                seq![
                    XmlModel::Element {
                        name: utf16_encode("MappedFolders"@),
                        content: folders_of(ss).map_values(|f: MappedFolderView| folder_xml(f)),
                    },
                ]
            }
        }),
{
    let c = apply_settings(empty_config(), ss);
    lemma_settings_fields(ss);
    let p1 = option_elements("vGPU"@, c.vgpu);
    let p2 = option_elements("Networking"@, c.networking);
    let p3 = folders_elements(c.mapped_folders);
    let p4 = logon_elements(c.logon_command);
    let p5 = option_elements("AudioInput"@, c.audio_input);
    let p6 = option_elements("VideoInput"@, c.video_input);
    let p7 = option_elements("ProtectedClient"@, c.protected_client);
    let p8 = option_elements("PrinterRedirection"@, c.printer_redirection);
    let p9 = option_elements("ClipboardRedirection"@, c.clipboard_redirection);
    let p10 = memory_elements(c.memory_in_mb);
    lemma_option_names("vGPU"@, c.vgpu);
    lemma_option_names("Networking"@, c.networking);
    lemma_option_names("AudioInput"@, c.audio_input);
    lemma_option_names("VideoInput"@, c.video_input);
    lemma_option_names("ProtectedClient"@, c.protected_client);
    lemma_option_names("PrinterRedirection"@, c.printer_redirection);
    lemma_option_names("ClipboardRedirection"@, c.clipboard_redirection);
    assert(child_names(p3) =~= named_if(called(ss, 2), "MappedFolders"@));
    assert(child_names(p4) =~= named_if(called(ss, 3), "LogonCommand"@));
    assert(child_names(p10) =~= named_if(called(ss, 9), "MemoryInMB"@));
    lemma_names_concat(p1, p2);
    lemma_names_concat(p1 + p2, p3);
    lemma_names_concat(p1 + p2 + p3, p4);
    lemma_names_concat(p1 + p2 + p3 + p4, p5);
    lemma_names_concat(p1 + p2 + p3 + p4 + p5, p6);
    lemma_names_concat(p1 + p2 + p3 + p4 + p5 + p6, p7);
    lemma_names_concat(p1 + p2 + p3 + p4 + p5 + p6 + p7, p8);
    lemma_names_concat(p1 + p2 + p3 + p4 + p5 + p6 + p7 + p8, p9);
    lemma_names_concat(p1 + p2 + p3 + p4 + p5 + p6 + p7 + p8 + p9, p10);
}

/// The sandbox folder that the last such call among `ss` set, if any.
pub open spec fn last_sandbox_folder(ss: Seq<FolderSetting>) -> Option<Seq<u16>>
    decreases ss.len(),
{
    if ss.len() == 0 {
        None
    } else {
        match ss.last() {
            FolderSetting::SandboxFolder(d) => Some(d),
            _ => last_sandbox_folder(ss.drop_last()),
        }
    }
}

/// The read-only flag that the last such call among `ss` set, if any.
pub open spec fn last_read_only(ss: Seq<FolderSetting>) -> Option<bool>
    decreases ss.len(),
{
    if ss.len() == 0 {
        None
    } else {
        match ss.last() {
            FolderSetting::ReadOnly(r) => Some(r),
            _ => last_read_only(ss.drop_last()),
        }
    }
}

proof fn lemma_folder_fields(h: Seq<u16>, ss: Seq<FolderSetting>)
    ensures
        apply_folder_settings(new_folder(h), ss) == (MappedFolderView {
            host_folder: h,
            sandbox_folder: last_sandbox_folder(ss),
            read_only: last_read_only(ss),
        }),
    decreases ss.len(),
{
    if ss.len() > 0 {
        lemma_folder_fields(h, ss.drop_last());
    }
}

/// A mapping made from the host folder `h` by any setter calls `ss`, in any
/// order: its `<MappedFolder>` element holds the host folder, then the
/// sandbox folder of the last call that set one, then the read-only flag of
/// the last call that set one; a value never set has no element.
pub proof fn law_folder_from_settings(h: Seq<u16>, ss: Seq<FolderSetting>)
    ensures
        folder_xml(apply_folder_settings(new_folder(h), ss)) == (XmlModel::Element {
            name: utf16_encode("MappedFolder"@),
            content: seq![text_element("HostFolder"@, h)] + match last_sandbox_folder(ss) {
                Some(d) => seq![text_element("SandboxFolder"@, d)],
                None => Seq::<XmlModel>::empty(),
            } + match last_read_only(ss) {
                Some(r) => seq![
                    text_element("ReadOnly"@, utf16_encode(if r { "true"@ } else { "false"@ })),
                ],
                None => Seq::<XmlModel>::empty(),
            },
        }),
{
    lemma_folder_fields(h, ss);
}

/// `t` holds none of `<`, `>`, `"` and `'`.
pub open spec fn markup_free(t: Seq<u16>) -> bool {
    forall|i: int| 0 <= i < t.len() ==> t[i] != LT && t[i] != GT && t[i] != QUOT && t[i] != APOS
}

/// `m` is an element called `name` whose only child is XML text that
/// decodes to `text` and holds no markup character.
pub open spec fn holds_text(m: XmlModel, name: Seq<char>, text: Seq<u16>) -> bool {
    exists|t: Seq<u16>|
        #![trigger unescape(t)]
        m == (XmlModel::Element { name: utf16_encode(name), content: seq![XmlModel::Text(t)] })
            && unescape(t) == text && markup_free(t)
}

/// `cs` has a node that [`holds_text`] `text` under `name`.
pub open spec fn has_text_child(cs: Seq<XmlModel>, name: Seq<char>, text: Seq<u16>) -> bool {
    exists|i: int| 0 <= i < cs.len() && holds_text(#[trigger] cs[i], name, text)
}

/// The text of an element made for a value is that value, escaped: it
/// decodes back to the value and holds no markup character, whatever the
/// value holds.
pub proof fn law_text_element_escapes(name: Seq<char>, text: Seq<u16>)
    ensures
        holds_text(text_element(name, text), name, text),
{
    lemma_unescape_escape(text);
    lemma_escape_no_markup(text);
    let t = escape(text);
    assert(markup_free(t));
    assert(text_element(name, text) == (XmlModel::Element {
        name: utf16_encode(name),
        content: seq![XmlModel::Text(t)],
    }));
}

proof fn lemma_has_text_concat(a: Seq<XmlModel>, b: Seq<XmlModel>, name: Seq<char>, text: Seq<u16>)
    ensures
        has_text_child(a, name, text) ==> has_text_child(a + b, name, text),
        has_text_child(b, name, text) ==> has_text_child(a + b, name, text),
{
    if has_text_child(a, name, text) {
        let i = choose|i: int| 0 <= i < a.len() && holds_text(#[trigger] a[i], name, text);
        assert((a + b)[i] == a[i]);
    }
    if has_text_child(b, name, text) {
        let i = choose|i: int| 0 <= i < b.len() && holds_text(#[trigger] b[i], name, text);
        assert((a + b)[a.len() + i] == b[i]);
    }
}

proof fn lemma_has_text_single(m: XmlModel, name: Seq<char>, text: Seq<u16>)
    requires
        holds_text(m, name, text),
    ensures
        has_text_child(seq![m], name, text),
{
    assert(seq![m][0] == m);
}

/// `has_text_child` of the configuration's children, lifted from one part
/// of them.
proof fn lemma_children_parts(c: SandboxConfigView, name: Seq<char>, text: Seq<u16>, k: int)
    requires
        0 <= k < 10,
        has_text_child(
            if k == 0 {
                option_elements("vGPU"@, c.vgpu)
            } else if k == 1 {
                option_elements("Networking"@, c.networking)
            } else if k == 2 {
                folders_elements(c.mapped_folders)
            } else if k == 3 {
                logon_elements(c.logon_command)
            } else if k == 4 {
                option_elements("AudioInput"@, c.audio_input)
            } else if k == 5 {
                option_elements("VideoInput"@, c.video_input)
            } else if k == 6 {
                option_elements("ProtectedClient"@, c.protected_client)
            } else if k == 7 {
                option_elements("PrinterRedirection"@, c.printer_redirection)
            } else if k == 8 {
                option_elements("ClipboardRedirection"@, c.clipboard_redirection)
            } else {
                memory_elements(c.memory_in_mb)
            },
            name,
            text,
        ),
    ensures
        has_text_child(config_children(c), name, text),
{
    let p1 = option_elements("vGPU"@, c.vgpu);
    let p2 = option_elements("Networking"@, c.networking);
    let p3 = folders_elements(c.mapped_folders);
    let p4 = logon_elements(c.logon_command);
    let p5 = option_elements("AudioInput"@, c.audio_input);
    let p6 = option_elements("VideoInput"@, c.video_input);
    let p7 = option_elements("ProtectedClient"@, c.protected_client);
    let p8 = option_elements("PrinterRedirection"@, c.printer_redirection);
    let p9 = option_elements("ClipboardRedirection"@, c.clipboard_redirection);
    let p10 = memory_elements(c.memory_in_mb);
    lemma_has_text_concat(p1, p2, name, text);
    lemma_has_text_concat(p1 + p2, p3, name, text);
    lemma_has_text_concat(p1 + p2 + p3, p4, name, text);
    lemma_has_text_concat(p1 + p2 + p3 + p4, p5, name, text);
    lemma_has_text_concat(p1 + p2 + p3 + p4 + p5, p6, name, text);
    lemma_has_text_concat(p1 + p2 + p3 + p4 + p5 + p6, p7, name, text);
    lemma_has_text_concat(p1 + p2 + p3 + p4 + p5 + p6 + p7, p8, name, text);
    lemma_has_text_concat(p1 + p2 + p3 + p4 + p5 + p6 + p7 + p8, p9, name, text);
    lemma_has_text_concat(p1 + p2 + p3 + p4 + p5 + p6 + p7 + p8 + p9, p10, name, text);
}

proof fn lemma_option_part(name: Seq<char>, v: OptionState)
    ensures
        has_text_child(option_elements(name, Some(v)), name, state_text(v)),
{
    law_text_element_escapes(name, state_text(v));
    lemma_has_text_single(text_element(name, state_text(v)), name, state_text(v));
}

/// Each option setter puts the state it is given, and no other, into the
/// configuration: after it the document has an element of that option whose
/// text decodes to the name of that state. The memory setter does the same
/// with the decimal digits of the value it is given.
pub proof fn law_option_setters_store_their_value(c: SandboxConfigView, v: OptionState, mb: u32)
    ensures
        apply_setting(c, ConfigSetting::Vgpu(v)).vgpu == Some(v),
        apply_setting(c, ConfigSetting::Networking(v)).networking == Some(v),
        apply_setting(c, ConfigSetting::AudioInput(v)).audio_input == Some(v),
        apply_setting(c, ConfigSetting::VideoInput(v)).video_input == Some(v),
        apply_setting(c, ConfigSetting::ProtectedClient(v)).protected_client == Some(v),
        apply_setting(c, ConfigSetting::PrinterRedirection(v)).printer_redirection == Some(v),
        apply_setting(c, ConfigSetting::ClipboardRedirection(v)).clipboard_redirection == Some(
            v,
        ),
        apply_setting(c, ConfigSetting::MemoryInMb(mb)).memory_in_mb == Some(mb),
        has_text_child(
            config_children(apply_setting(c, ConfigSetting::Vgpu(v))),
            "vGPU"@,
            state_text(v),
        ),
        has_text_child(
            config_children(apply_setting(c, ConfigSetting::Networking(v))),
            "Networking"@,
            state_text(v),
        ),
        has_text_child(
            config_children(apply_setting(c, ConfigSetting::AudioInput(v))),
            "AudioInput"@,
            state_text(v),
        ),
        has_text_child(
            config_children(apply_setting(c, ConfigSetting::VideoInput(v))),
            "VideoInput"@,
            state_text(v),
        ),
        has_text_child(
            config_children(apply_setting(c, ConfigSetting::ProtectedClient(v))),
            "ProtectedClient"@,
            state_text(v),
        ),
        has_text_child(
            config_children(apply_setting(c, ConfigSetting::PrinterRedirection(v))),
            "PrinterRedirection"@,
            state_text(v),
        ),
        has_text_child(
            config_children(apply_setting(c, ConfigSetting::ClipboardRedirection(v))),
            "ClipboardRedirection"@,
            state_text(v),
        ),
        has_text_child(
            config_children(apply_setting(c, ConfigSetting::MemoryInMb(mb))),
            "MemoryInMB"@,
            decimal(mb as nat),
        ),
{
    lemma_option_part("vGPU"@, v);
    lemma_children_parts(apply_setting(c, ConfigSetting::Vgpu(v)), "vGPU"@, state_text(v), 0);
    lemma_option_part("Networking"@, v);
    lemma_children_parts(
        apply_setting(c, ConfigSetting::Networking(v)),
        "Networking"@,
        state_text(v),
        1,
    );
    lemma_option_part("AudioInput"@, v);
    lemma_children_parts(
        apply_setting(c, ConfigSetting::AudioInput(v)),
        "AudioInput"@,
        state_text(v),
        4,
    );
    lemma_option_part("VideoInput"@, v);
    lemma_children_parts(
        apply_setting(c, ConfigSetting::VideoInput(v)),
        "VideoInput"@,
        state_text(v),
        5,
    );
    lemma_option_part("ProtectedClient"@, v);
    lemma_children_parts(
        apply_setting(c, ConfigSetting::ProtectedClient(v)),
        "ProtectedClient"@,
        state_text(v),
        6,
    );
    lemma_option_part("PrinterRedirection"@, v);
    lemma_children_parts(
        apply_setting(c, ConfigSetting::PrinterRedirection(v)),
        "PrinterRedirection"@,
        state_text(v),
        7,
    );
    lemma_option_part("ClipboardRedirection"@, v);
    lemma_children_parts(
        apply_setting(c, ConfigSetting::ClipboardRedirection(v)),
        "ClipboardRedirection"@,
        state_text(v),
        8,
    );
    law_text_element_escapes("MemoryInMB"@, decimal(mb as nat));
    lemma_has_text_single(
        text_element("MemoryInMB"@, decimal(mb as nat)),
        "MemoryInMB"@,
        decimal(mb as nat),
    );
    lemma_children_parts(
        apply_setting(c, ConfigSetting::MemoryInMb(mb)),
        "MemoryInMB"@,
        decimal(mb as nat),
        9,
    );
}

/// `m` is a `<LogonCommand>` element whose only child [`holds_text`] `cmd`
/// under the name `Command`.
pub open spec fn holds_command(m: XmlModel, cmd: Seq<u16>) -> bool {
    match m {
        XmlModel::Element { name, content } => name == utf16_encode("LogonCommand"@)
            && content.len() == 1 && holds_text(content[0], "Command"@, cmd),
        XmlModel::Text(_) => false,
    }
}

/// `m` is a `<MappedFolder>` element that holds the host folder of `f`, and
/// its sandbox folder where one is set, as escaped text.
pub open spec fn holds_folder(m: XmlModel, f: MappedFolderView) -> bool {
    match m {
        XmlModel::Element { name, content } => name == utf16_encode("MappedFolder"@)
            && has_text_child(content, "HostFolder"@, f.host_folder) && match f.sandbox_folder {
            Some(d) => has_text_child(content, "SandboxFolder"@, d),
            None => true,
        },
        XmlModel::Text(_) => false,
    }
}

/// After `logon_command(cmd)` the document has a `<LogonCommand>` element
/// whose only child is a `<Command>` element whose text is `cmd`, escaped:
/// it decodes back to `cmd` and holds no markup character, whatever `cmd`
/// holds.
pub proof fn law_logon_command_is_escaped(c: SandboxConfigView, cmd: Seq<u16>)
    ensures
        exists|i: int|
            0 <= i < config_children(apply_setting(c, ConfigSetting::LogonCommand(cmd))).len()
                && holds_command(
                #[trigger] config_children(apply_setting(c, ConfigSetting::LogonCommand(cmd)))[i],
                cmd,
            ),
{
    let v = apply_setting(c, ConfigSetting::LogonCommand(cmd));
    let p1 = option_elements("vGPU"@, v.vgpu);
    let p2 = option_elements("Networking"@, v.networking);
    let p3 = folders_elements(v.mapped_folders);
    let p4 = logon_elements(v.logon_command);
    let rest = option_elements("AudioInput"@, v.audio_input) + option_elements(
        "VideoInput"@,
        v.video_input,
    ) + option_elements("ProtectedClient"@, v.protected_client) + option_elements(
        "PrinterRedirection"@,
        v.printer_redirection,
    ) + option_elements("ClipboardRedirection"@, v.clipboard_redirection) + memory_elements(
        v.memory_in_mb,
    );
    let children = config_children(v);
    assert(children =~= p1 + p2 + p3 + p4 + rest);
    let i = (p1.len() + p2.len() + p3.len()) as int;
    assert(children[i] == p4[0]);
    law_text_element_escapes("Command"@, cmd);
    assert(holds_command(children[i], cmd));
}

/// The `<MappedFolder>` element of a folder holds its host folder, and its
/// sandbox folder where one is set, as escaped text that decodes back to
/// them.
pub proof fn law_folder_texts_are_escaped(f: MappedFolderView)
    ensures
        holds_folder(folder_xml(f), f),
{
    let a = seq![text_element("HostFolder"@, f.host_folder)];
    let b = match f.sandbox_folder {
        Some(sf) => seq![text_element("SandboxFolder"@, sf)],
        None => seq![],
    };
    let r = match f.read_only {
        Some(true) => seq![text_element("ReadOnly"@, utf16_encode("true"@))],
        Some(false) => seq![text_element("ReadOnly"@, utf16_encode("false"@))],
        None => seq![],
    };
    law_text_element_escapes("HostFolder"@, f.host_folder);
    lemma_has_text_single(text_element("HostFolder"@, f.host_folder), "HostFolder"@, f.host_folder);
    lemma_has_text_concat(a, b, "HostFolder"@, f.host_folder);
    lemma_has_text_concat(a + b, r, "HostFolder"@, f.host_folder);
    if let Some(d) = f.sandbox_folder {
        law_text_element_escapes("SandboxFolder"@, d);
        lemma_has_text_single(text_element("SandboxFolder"@, d), "SandboxFolder"@, d);
        lemma_has_text_concat(a, b, "SandboxFolder"@, d);
        lemma_has_text_concat(a + b, r, "SandboxFolder"@, d);
    }
    assert(folder_xml(f)->Element_content == a + b + r);
}

/// Different states are written as different texts, so the document tells
/// them apart.
pub proof fn law_state_texts_differ(v: OptionState, w: OptionState)
    ensures
        v != w ==> state_text(v) != state_text(w),
{
    reveal_strlit("Enable");
    reveal_strlit("Disable");
    reveal_strlit("Default");
    lemma_utf16_bmp("Enable"@);
    lemma_utf16_bmp("Disable"@);
    lemma_utf16_bmp("Default"@);
    let e = state_text(OptionState::Enable);
    let di = state_text(OptionState::Disable);
    let de = state_text(OptionState::Default);
    assert(e.len() == 6 && di.len() == 7);
    assert(di[1] == 'i' as u16 && de[1] == 'e' as u16);
    assert(e.len() != de.len());
}

/// The read-only flag is written as `true` or `false`, two different texts.
pub proof fn law_read_only_texts_differ()
    ensures
        utf16_encode("true"@) != utf16_encode("false"@),
{
    reveal_strlit("true");
    reveal_strlit("false");
    lemma_utf16_bmp("true"@);
    lemma_utf16_bmp("false"@);
    assert(utf16_encode("true"@).len() == 4);
    assert(utf16_encode("false"@).len() == 5);
}

} // verus!

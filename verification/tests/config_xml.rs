use wsbx::config::{Command, MappedFolder, OptionState, SandboxConfig};
use wsbx::xml::{utf16, Xml};

fn wide(s: &str) -> Vec<u16> {
    s.encode_utf16().collect()
}

fn text(units: Vec<u16>) -> String {
    String::from_utf16(&units).unwrap()
}

#[test]
fn mapped_folder_accepts_path_like_inputs() {
    let config = SandboxConfig::new()
        .mapped_folder(MappedFolder::new(wide(r"C:\host")))
        .mapped_folder(MappedFolder::new(wide(r"C:\host2")));

    assert_eq!(
        text(config.to_os_string()),
        [
            r"<Configuration>",
            r"<MappedFolders>",
            r"<MappedFolder>",
            r"<HostFolder>C:\host</HostFolder>",
            r"</MappedFolder>",
            r"<MappedFolder>",
            r"<HostFolder>C:\host2</HostFolder>",
            r"</MappedFolder>",
            r"</MappedFolders>",
            r"</Configuration>"
        ].concat(),
    );
}

#[test]
fn logon_command_accepts_string_like_inputs() {
    let config = SandboxConfig::new()
        .logon_command(Command::new(wide("cmd.exe")))
        .logon_command(Command::new(wide("powershell.exe")));

    assert_eq!(
        text(config.to_os_string()),
        [
            r"<Configuration>",
            r"<LogonCommand>",
            r"<Command>powershell.exe</Command>",
            r"</LogonCommand>",
            r"</Configuration>"
        ].concat(),
    );
}

#[test]
fn pretty_serializes_nested_configuration() {
    let config = SandboxConfig::new()
        .vgpu(false.into())
        .mapped_folder(
            MappedFolder::new(wide(r"C:\host"))
                .sandbox_folder(wide(r"C:\sandbox"))
                .read_only(true),
        )
        .logon_command(Command::new(wide("cmd.exe")));

    assert_eq!(
        text(config.to_pretty_os_string()),
        [
            "<Configuration>\n",
            "  <vGPU>Disable</vGPU>\n",
            "  <MappedFolders>\n",
            "    <MappedFolder>\n",
            "      <HostFolder>C:\\host</HostFolder>\n",
            "      <SandboxFolder>C:\\sandbox</SandboxFolder>\n",
            "      <ReadOnly>true</ReadOnly>\n",
            "    </MappedFolder>\n",
            "  </MappedFolders>\n",
            "  <LogonCommand>\n",
            "    <Command>cmd.exe</Command>\n",
            "  </LogonCommand>\n",
            "</Configuration>\n",
        ].concat(),
    );
}

#[test]
fn text_escapes_xml_special_characters() {
    let xml = Xml::text(&wide(r#"<tag attr="value">&'text'"#));

    assert_eq!(
        text(xml.to_os_string()),
        "&lt;tag attr=&quot;value&quot;&gt;&amp;&apos;text&apos;"
    );
}

#[test]
fn pretty_prints_nested_elements() {
    let xml = Xml::element(
        wide("Root"),
        vec![
            Xml::element(wide("Child"), vec![Xml::text(&wide("value"))]),
            Xml::element(wide("Empty"), Vec::new()),
        ],
    );

    assert_eq!(
        text(xml.to_pretty_os_string()),
        [
            "<Root>\n",
            "  <Child>value</Child>\n",
            "  <Empty></Empty>\n",
            "</Root>\n",
        ].concat()
    );
}

#[test]
fn config_serializes_to_expected_xml() {
    let config = SandboxConfig::new()
        .vgpu(false.into())
        .networking(true.into())
        .mapped_folder(
            MappedFolder::new(wide(r"C:\host"))
                .sandbox_folder(wide(r"C:\sandbox"))
                .read_only(true),
        )
        .logon_command(Command::new(wide(r"C:\sandbox\setup.cmd")))
        .memory_in_mb(4096);

    assert_eq!(
        text(config.to_os_string()),
        [
            r"<Configuration>",
            r"<vGPU>Disable</vGPU>",
            r"<Networking>Enable</Networking>",
            r"<MappedFolders>",
            r"<MappedFolder>",
            r"<HostFolder>C:\host</HostFolder>",
            r"<SandboxFolder>C:\sandbox</SandboxFolder>",
            r"<ReadOnly>true</ReadOnly>",
            r"</MappedFolder>",
            r"</MappedFolders>",
            r"<LogonCommand>",
            r"<Command>C:\sandbox\setup.cmd</Command>",
            r"</LogonCommand>",
            r"<MemoryInMB>4096</MemoryInMB>",
            r"</Configuration>"
        ].concat()
    );
}

#[test]
fn empty_config_is_an_empty_configuration_element() {
    assert_eq!(text(SandboxConfig::new().to_os_string()), "<Configuration></Configuration>");
    assert_eq!(
        text(SandboxConfig::new().to_pretty_os_string()),
        "<Configuration></Configuration>\n"
    );
}

#[test]
fn all_options_appear_in_format_order() {
    let config = SandboxConfig::new()
        .memory_in_mb(0)
        .clipboard_redirection(OptionState::Default)
        .printer_redirection(OptionState::Enable)
        .protected_client(OptionState::Disable)
        .video_input(true.into())
        .audio_input(false.into())
        .networking(OptionState::Default)
        .vgpu(OptionState::Enable);

    assert_eq!(
        text(config.to_os_string()),
        [
            "<Configuration>",
            "<vGPU>Enable</vGPU>",
            "<Networking>Default</Networking>",
            "<AudioInput>Disable</AudioInput>",
            "<VideoInput>Enable</VideoInput>",
            "<ProtectedClient>Disable</ProtectedClient>",
            "<PrinterRedirection>Enable</PrinterRedirection>",
            "<ClipboardRedirection>Default</ClipboardRedirection>",
            "<MemoryInMB>0</MemoryInMB>",
            "</Configuration>"
        ].concat()
    );
}

#[test]
fn setting_an_option_twice_keeps_the_last_value() {
    let config = SandboxConfig::new().networking(OptionState::Enable).networking(false.into());
    assert_eq!(
        text(config.to_os_string()),
        "<Configuration><Networking>Disable</Networking></Configuration>"
    );
}

#[test]
fn memory_is_written_in_decimal() {
    let config = SandboxConfig::new().memory_in_mb(u32::MAX);
    assert_eq!(
        text(config.to_os_string()),
        "<Configuration><MemoryInMB>4294967295</MemoryInMB></Configuration>"
    );
    let config = SandboxConfig::new().memory_in_mb(10);
    assert_eq!(
        text(config.to_os_string()),
        "<Configuration><MemoryInMB>10</MemoryInMB></Configuration>"
    );
}

#[test]
fn mapped_folder_text_is_escaped_and_read_only_false_is_written() {
    let folder = MappedFolder::new(wide(r"C:\a&b")).read_only(false);
    assert_eq!(
        text(folder.to_xml().to_os_string()),
        r"<MappedFolder><HostFolder>C:\a&amp;b</HostFolder><ReadOnly>false</ReadOnly></MappedFolder>"
    );
}

#[test]
fn non_ascii_and_surrogate_text_is_kept() {
    let folder = MappedFolder::new(wide("C:\\données\\🦀"));
    assert_eq!(
        text(folder.to_xml().to_os_string()),
        "<MappedFolder><HostFolder>C:\\données\\🦀</HostFolder></MappedFolder>"
    );
    let lone = vec![0xd800u16, 0x3c];
    match Xml::text(&lone) {
        Xml::Text(t) => assert_eq!(t, vec![0xd800u16, 0x26, 0x6c, 0x74, 0x3b]),
        Xml::Element { .. } => panic!("a text node was expected"),
    }
}

#[test]
fn option_state_from_bool_and_default() {
    assert_eq!(OptionState::from(true), OptionState::Enable);
    assert_eq!(OptionState::from(false), OptionState::Disable);
    assert_eq!(OptionState::default(), OptionState::Default);
    assert_eq!(text(OptionState::Default.to_xml().to_os_string()), "Default");
}

#[test]
fn text_without_special_characters_is_unchanged() {
    assert_eq!(text(Xml::text(&wide("plain text; 100%")).to_os_string()), "plain text; 100%");
    assert_eq!(text(Xml::text(&[]).to_os_string()), "");
}

#[test]
fn compact_writes_no_whitespace_and_pretty_inlines_single_text() {
    let xml = Xml::element(
        wide("A"),
        vec![Xml::text(&wide("x")), Xml::element(wide("B"), vec![Xml::text(&wide("y"))])],
    );
    assert_eq!(text(xml.to_os_string()), "<A>x<B>y</B></A>");
    assert_eq!(text(xml.to_pretty_os_string()), "<A>\n  x\n  <B>y</B>\n</A>\n");
    let bare = Xml::text(&wide("t"));
    assert_eq!(text(bare.to_pretty_os_string()), "t\n");
}

#[test]
fn utf16_of_basic_characters() {
    assert_eq!(utf16('&'), 0x26);
    assert_eq!(utf16('<'), 0x3c);
    assert_eq!(utf16('>'), 0x3e);
    assert_eq!(utf16('"'), 0x22);
    assert_eq!(utf16('\''), 0x27);
    assert_eq!(utf16('é'), 0xe9);
}

#[test]
fn different_setters_commute() {
    let a = SandboxConfig::new()
        .mapped_folder(MappedFolder::new(wide(r"C:\one")))
        .logon_command(Command::new(wide("cmd.exe")))
        .memory_in_mb(512)
        .mapped_folder(MappedFolder::new(wide(r"C:\two")));
    let b = SandboxConfig::new()
        .memory_in_mb(512)
        .mapped_folder(MappedFolder::new(wide(r"C:\one")))
        .mapped_folder(MappedFolder::new(wide(r"C:\two")))
        .logon_command(Command::new(wide("cmd.exe")));
    assert_eq!(text(a.to_os_string()), text(b.to_os_string()));
    assert_eq!(text(a.to_pretty_os_string()), text(b.to_pretty_os_string()));
}

#[test]
fn folder_keeps_last_values_in_fixed_order() {
    let folder = MappedFolder::new(wide(r"C:\host"))
        .read_only(true)
        .sandbox_folder(wide(r"C:\first"))
        .read_only(false)
        .sandbox_folder(wide(r"C:\second"));
    assert_eq!(
        text(folder.to_xml().to_os_string()),
        concat_parts(&[
            r"<MappedFolder><HostFolder>C:\host</HostFolder>",
            r"<SandboxFolder>C:\second</SandboxFolder><ReadOnly>false</ReadOnly></MappedFolder>",
        ])
    );
}

fn concat_parts(parts: &[&str]) -> String {
    parts.concat()
}

#[test]
fn pretty_lines_are_indented_compact_output() {
    let config = SandboxConfig::new()
        .vgpu(OptionState::Enable)
        .mapped_folder(MappedFolder::new(wide(r"C:\host")).read_only(true))
        .logon_command(Command::new(wide("cmd.exe")))
        .memory_in_mb(2048);
    let pretty = text(config.to_pretty_os_string());
    let flattened: String = pretty.lines().map(|l| l.trim_start_matches(' ')).collect();
    assert_eq!(flattened, text(config.to_os_string()));
    let nested = Xml::element(wide("Outer"), vec![config.to_xml()]);
    let deeper = text(nested.to_pretty_os_string());
    let expected: String = std::iter::once("<Outer>\n".to_string())
        .chain(pretty.lines().map(|l| format!("  {l}\n")))
        .chain(std::iter::once("</Outer>\n".to_string()))
        .collect();
    assert_eq!(deeper, expected);
}

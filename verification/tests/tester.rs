use ness_relay::tester::{autocomplete_content, manual_device_defaults, FormStep, ManualDevice, ManualForm};

fn run(answers: &[&str]) -> (ManualForm, Vec<String>, Vec<(String, bool)>) {
    let mut form = ManualForm::start("192.168.88.1", false, true);
    let mut notices = Vec::new();
    let mut prompts = Vec::new();
    for a in answers {
        match form.prompt() {
            Some((p, hidden)) => prompts.push((p.to_string(), hidden)),
            None => break,
        }
        if let Some(n) = form.answer(a) {
            notices.push(n.to_string());
        }
    }
    (form, notices, prompts)
}

#[test]
fn form_skipped_without_terminal_or_with_assumed_answers() {
    let f = ManualForm::start("10.0.0.1", true, true);
    assert_eq!(f.step, FormStep::Cancelled);
    assert!(f.prompt().is_none());
    let f = ManualForm::start("10.0.0.1", false, false);
    assert_eq!(f.step, FormStep::Cancelled);
    assert!(f.finished_device().is_none());
}

#[test]
fn form_declined() {
    let (form, _, _) = run(&["n"]);
    assert_eq!(form.step, FormStep::Cancelled);
    assert!(form.finished_device().is_none());
}

#[test]
fn form_snmp_v2c_defaults() {
    let (form, notices, prompts) = run(&["", "2", "", ""]);
    assert!(notices.is_empty());
    assert_eq!(prompts[3].0, "Community SNMPv2c (default public): ");
    let d = form.finished_device().unwrap();
    assert_eq!(d.snmp_version, "2c");
    assert_eq!(d.port, 161);
    assert_eq!(d.community, "public");
    assert_eq!(d.ip, "192.168.88.1");
    assert_eq!(d.device_id, "manual_1");
}

#[test]
fn form_snmp_v1_custom_port_and_community() {
    let (form, _, prompts) = run(&["y", " 1 ", " 1161 ", "  secret  "]);
    assert_eq!(prompts[3].0, "Community SNMPv1 (default public): ");
    let d = form.finished_device().unwrap();
    assert_eq!(d.snmp_version, "1");
    assert_eq!(d.port, 1161);
    assert_eq!(d.community, "secret");
}

#[test]
fn form_bad_port_keeps_default() {
    let (form, _, _) = run(&["y", "2", "70000", ""]);
    assert_eq!(form.finished_device().unwrap().port, 161);
    let (form, _, _) = run(&["y", "2", "abc", ""]);
    assert_eq!(form.finished_device().unwrap().port, 161);
}

#[test]
fn form_snmp_v3_full() {
    let (form, notices, prompts) =
        run(&["si", "", "", "", "monitor", "3", "n", "authpass", "4", "y", "privpass"]);
    // the blank user is asked again
    assert_eq!(notices, vec!["[WARN] Este campo es obligatorio.".to_string()]);
    assert_eq!(prompts[4].0, "Usuario SNMPv3: ");
    // hidden auth password after answering "n", visible priv password after "y"
    assert_eq!(prompts[7], ("Auth password SNMPv3: ".to_string(), true));
    assert_eq!(prompts[10], ("Priv password SNMPv3: ".to_string(), false));
    assert!(prompts[5].0.ends_with("Selecciona 1-7 [default: 2]: "));
    assert!(prompts[8].0.ends_with("Selecciona 1-5 [default: 1]: "));
    let d = form.finished_device().unwrap();
    assert_eq!(d.snmp_version, "3");
    assert_eq!(d.community, "");
    assert_eq!(d.v3_user, "monitor");
    assert_eq!(d.v3_auth_protocol, "SHA256");
    assert_eq!(d.v3_auth_password, "authpass");
    assert_eq!(d.v3_priv_protocol, "DES");
    assert_eq!(d.v3_priv_password, "privpass");
}

#[test]
fn form_snmp_v3_without_auth_disables_privacy() {
    let (form, notices, _) = run(&["", "3", "", "admin", "7"]);
    assert_eq!(
        notices,
        vec!["[INFO] SNMPv3 sin autenticación: privacidad desactivada automáticamente (NONE).".to_string()]
    );
    let d = form.finished_device().unwrap();
    assert_eq!(d.v3_auth_protocol, "NONE");
    assert_eq!(d.v3_priv_protocol, "NONE");
    assert_eq!(d.v3_auth_password, "");
    assert_eq!(d.v3_priv_password, "");
}

#[test]
fn form_menu_defaults() {
    let (form, _, _) = run(&["", "", "", "u", "9", "", "a", "", ""]);
    // unknown auth choice is SHA, blank priv choice AES128; the form then asks for the priv password
    assert_eq!(form.step, FormStep::PrivPassword);
    assert_eq!(form.device.v3_auth_protocol, "SHA");
    assert_eq!(form.device.v3_priv_protocol, "AES128");
    let (form, _, _) = run(&["", "", "", "u", "1", "", "a", "5"]);
    assert_eq!(form.step, FormStep::Done);
    assert_eq!(form.device.v3_auth_protocol, "MD5");
    assert_eq!(form.device.v3_priv_protocol, "NONE");
}

fn device(id: &str, version: &str) -> ManualDevice {
    let mut d = manual_device_defaults("10.1.1.1");
    d.device_id = id.to_string();
    d.snmp_version = version.to_string();
    d.v3_user = "u".to_string();
    d.v3_auth_password = "ap".to_string();
    d.v3_priv_password = "pp".to_string();
    d
}

#[test]
fn autocomplete_only_validated_manual_devices() {
    let devices = vec![device("manual_1", "3"), device("router_1", "2c"), device("manual_2", "2c")];
    let validated = vec!["manual_1".to_string(), "router_1".to_string(), "manual_2".to_string()];
    let text = autocomplete_content(&devices, &validated).unwrap();
    assert_eq!(
        text,
        "# NESS Smart Tester — Datos de autocompletado\n\
         # Generado automáticamente. Este archivo será consumido por install_relay.sh\n\
         ip=10.1.1.1\nport=161\nsnmp_version=3\n\
         v3_user=u\nv3_auth_protocol=SHA\nv3_auth_password=ap\nv3_priv_protocol=AES128\nv3_priv_password=pp\n\
         ip=10.1.1.1\nport=161\nsnmp_version=2c\ncommunity=public\n"
    );
}

#[test]
fn autocomplete_nothing_to_export() {
    let devices = vec![device("manual_1", "3"), device("router_1", "2c")];
    assert_eq!(autocomplete_content(&devices, &vec!["router_1".to_string()]), None);
    assert_eq!(autocomplete_content(&vec![], &vec![]), None);
}

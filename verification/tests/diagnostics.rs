use ness_relay::diagnostics::{
    classify_snmp_error, colorize_systemctl_output, contains_snmp_drop_rule, default_gateway_from_route,
    detect_v3_failure_kind, is_affirmative, local_firewall_findings, v3_failure_warning,
    vendor_specific_v3_guidance, SnmpVersion, V3FailureKind,
};

#[test]
fn v3_failure_kinds() {
    assert_eq!(detect_v3_failure_kind("report: 1.3.6.1.6.3.15.1.1.3.0 = 4"), Some(V3FailureKind::UnknownUser));
    assert_eq!(detect_v3_failure_kind("wrongdigest"), Some(V3FailureKind::WrongDigest));
    assert_eq!(detect_v3_failure_kind("usmstatsnotintimewindows"), Some(V3FailureKind::NotInTimeWindow));
    assert_eq!(detect_v3_failure_kind("decryption error"), Some(V3FailureKind::DecryptionError));
    assert_eq!(detect_v3_failure_kind("1.3.6.1.6.3.15.1.1.4.0"), Some(V3FailureKind::UnknownEngineId));
    assert_eq!(detect_v3_failure_kind("timeout"), None);
}

#[test]
fn v3_guidance() {
    assert!(v3_failure_warning(V3FailureKind::WrongDigest).starts_with("[WARN] SNMPv3 WrongDigest"));
    assert_eq!(
        vendor_specific_v3_guidance("mikrotik_fw", V3FailureKind::WrongDigest),
        "Revise auth-protocol/auth-password en /snmp user print detail."
    );
    assert_eq!(
        vendor_specific_v3_guidance("c_n", V3FailureKind::NotInTimeWindow),
        "Configure NTP estable y reintente tras sincronización."
    );
    assert_eq!(
        vendor_specific_v3_guidance("sophos", V3FailureKind::UnknownUser),
        "Valide que el usuario SNMPv3 exista y tenga permisos de lectura para el contexto consultado."
    );
}

#[test]
fn snmp_error_advice() {
    assert_eq!(
        classify_snmp_error("pfsense", 161, "10.0.0.1", SnmpVersion::V2c, "Request TIMEOUT"),
        vec![
            "[WARN] Timeout SNMP: posible puerto UDP 161 bloqueado o equipo no alcanzable.".to_string(),
            "Sugerencia: Vaya a Services > SNMP en su pfSense y habilite la interfaz LAN.".to_string(),
            "Sugerencia copy-paste: sudo nmap -sU -p 161 10.0.0.1".to_string(),
        ]
    );
    assert_eq!(
        classify_snmp_error("ubnt", 1161, "h", SnmpVersion::V1, "status=16"),
        vec!["[WARN] Authorization Error: Community String incorrecta o no permitida desde esta IP.".to_string()]
    );
    assert_eq!(
        classify_snmp_error("ubnt", 161, "h", SnmpVersion::V2c, "boom"),
        vec!["[WARN] Error SNMP v1/v2c: boom".to_string()]
    );
    let v3 = classify_snmp_error("fortinet", 161, "h", SnmpVersion::V3, "Report: WrongDigest");
    assert_eq!(v3.len(), 2);
    assert_eq!(v3[0], v3_failure_warning(V3FailureKind::WrongDigest));
    assert_eq!(
        v3[1],
        "Sugerencia vendor fortinet: Valide auth-proto y auth-pwd con show full-configuration system snmp user <user>."
    );
    assert_eq!(
        classify_snmp_error("x", 161, "h", SnmpVersion::V3, "Security level mismatch"),
        vec!["[WARN] Error de seguridad SNMPv3: revisar EngineID, usuario, auth/priv y ventana de tiempo.".to_string()]
    );
    assert_eq!(
        classify_snmp_error("x", 161, "h", SnmpVersion::V3, "weird"),
        vec!["[WARN] Error SNMPv3: weird".to_string()]
    );
}

#[test]
fn firewall_rules() {
    assert!(contains_snmp_drop_rule("-A INPUT -p udp --dport 161 -j DROP"));
    assert!(contains_snmp_drop_rule("-A OUTPUT -p udp --sport 161 -j REJECT"));
    assert!(!contains_snmp_drop_rule("-A INPUT -p udp --dport 161 -j ACCEPT"));
    assert!(!contains_snmp_drop_rule("-A INPUT -j DROP"));
    let f = local_firewall_findings(
        Some("Status: active\n161/udp DENY Anywhere"),
        Some("running\n"),
        Some("-A INPUT -p udp --dport 161 -j DROP"),
        Some("-A OUTPUT -j ACCEPT"),
        None,
    );
    assert_eq!(
        f,
        vec![
            "[INFO] UFW activo. Verifique reglas UDP/161 y respuestas de retorno.".to_string(),
            "[WARN] UFW parece bloquear SNMP (UDP/161). Ajuste reglas locales.".to_string(),
            "[INFO] firewalld activo. Revise zona activa y puertos UDP/161.".to_string(),
            "[WARN] iptables INPUT contiene regla DROP/REJECT para tráfico SNMP.".to_string(),
        ]
    );
    assert!(local_firewall_findings(Some("Status: inactive"), Some("not running"), None, None, Some("")).len() == 1);
}

#[test]
fn gateway_from_routes() {
    assert_eq!(
        default_gateway_from_route("default via 192.168.1.1 dev eth0 proto dhcp metric 100\n"),
        Some("192.168.1.1".to_string())
    );
    assert_eq!(default_gateway_from_route("default dev wg0 scope link"), None);
    assert_eq!(default_gateway_from_route("  via"), None);
    assert_eq!(default_gateway_from_route(""), None);
}

#[test]
fn yes_no_answers() {
    assert!(is_affirmative(""));
    assert!(is_affirmative("  Y\n"));
    assert!(is_affirmative("yes"));
    assert!(is_affirmative("SI"));
    assert!(is_affirmative("s"));
    assert!(!is_affirmative("no"));
    assert!(!is_affirmative("sí"));
}

#[test]
fn systemctl_colouring() {
    let out = "● cron.service - Regular background program\n     Loaded: loaded\n     Active: active (running) since Mon\n";
    let c = colorize_systemctl_output(out);
    assert_eq!(
        c,
        "\x1b[32m●\x1b[0m cron.service - Regular background program\n     Loaded: loaded\n     Active: \x1b[32mactive (running)\x1b[0m since Mon"
    );
    let dead = "● cron.service\r\n   Active: inactive (dead)";
    assert_eq!(
        colorize_systemctl_output(dead),
        "\x1b[31m●\x1b[0m cron.service\n   Active: \x1b[31minactive\x1b[0m (dead)"
    );
    let failed = "Active: failed (Result: exit-code)";
    assert_eq!(colorize_systemctl_output(failed), "Active: \x1b[31mfailed\x1b[0m (Result: exit-code)");
    assert_eq!(colorize_systemctl_output(""), "");
    assert_eq!(colorize_systemctl_output("plain\n\nlines"), "plain\n\nlines");
}

#[test]
fn removing_the_colours_gives_the_lines_back() {
    let outputs = [
        "● ness-relay.service - NESS Relay\n   Loaded: loaded\n   Active: active (running) since Mon\n",
        "● x.service\r\n   Active: inactive (dead)\nlast line",
        "   Active: failed (Result: exit-code)\n\n",
        "",
    ];
    for out in outputs.iter() {
        let colored = colorize_systemctl_output(out);
        let plain = colored
            .replace("\u{1b}[32m", "")
            .replace("\u{1b}[31m", "")
            .replace("\u{1b}[33m", "")
            .replace("\u{1b}[0m", "");
        assert_eq!(plain, out.lines().collect::<Vec<_>>().join("\n"));
    }
    let colored = colorize_systemctl_output("● a\n   Active: active (running)\n");
    assert!(colored.starts_with("\u{1b}[32m●\u{1b}[0m a"));
}

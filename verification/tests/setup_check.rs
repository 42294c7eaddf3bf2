use ness_relay::setup_check::{
    gateway_line, https_lines, manual_snmp_gate, ping_lines, ping_targets, sysname_line, ManualSnmpGate, PingTarget,
    Readiness, ReadinessEvent, ReadinessRequest, ReadinessStage,
};

fn run(r: &mut Readiness, events: Vec<ReadinessEvent>) -> (Vec<String>, Vec<ReadinessRequest>) {
    let mut lines = Vec::new();
    let mut reqs = Vec::new();
    for e in events {
        let (l, q) = r.step(e);
        lines.extend(l);
        reqs.push(q);
    }
    (lines, reqs)
}

#[test]
fn readiness_all_good() {
    let mut r = Readiness::new(false, false, Some("cron".to_string()));
    let (lines, reqs) = run(&mut r, vec![ReadinessEvent::CronFound(true), ReadinessEvent::ServiceEnabled(true)]);
    assert_eq!(lines, vec!["[OK] Cron detectado en el sistema.", "[OK] Servicio cron habilitado."]);
    assert_eq!(reqs, vec![ReadinessRequest::CheckService("cron".to_string()), ReadinessRequest::Finish(Ok(()))]);
    assert_eq!(r.stage, ReadinessStage::Finished);
}

#[test]
fn readiness_without_auto_fix_only_advises() {
    let mut r = Readiness::new(false, true, None);
    let (lines, reqs) = run(&mut r, vec![ReadinessEvent::CronFound(false)]);
    assert_eq!(
        lines,
        vec![
            "[WARN] Cron no está instalado.",
            "[INFO] Auto-fix deshabilitado. Recomendación: instalar cron antes de terminar.",
            "[INFO] No se detectó systemd o servicio cron explícito. Verifica el scheduler manualmente.",
        ]
    );
    assert_eq!(reqs, vec![ReadinessRequest::Finish(Ok(()))]);
}

#[test]
fn readiness_asks_before_fixing() {
    let mut r = Readiness::new(true, false, Some("crond".to_string()));
    let (lines, reqs) = run(
        &mut r,
        vec![
            ReadinessEvent::CronFound(false),
            ReadinessEvent::Answer(true),
            ReadinessEvent::CronInstalled(Ok(())),
            ReadinessEvent::ServiceEnabled(false),
            ReadinessEvent::Answer(true),
            ReadinessEvent::ServiceEnabled(true),
        ],
    );
    assert_eq!(
        reqs,
        vec![
            ReadinessRequest::Ask(
                "Se requiere instalar cron para programación automática. ¿Autoriza la instalación ahora? [Y/n]: ".to_string()
            ),
            ReadinessRequest::InstallCron,
            ReadinessRequest::CheckService("crond".to_string()),
            ReadinessRequest::Ask("¿Desea habilitar el servicio crond ahora? [Y/n]: ".to_string()),
            ReadinessRequest::EnableService("crond".to_string()),
            ReadinessRequest::Finish(Ok(())),
        ]
    );
    assert_eq!(
        lines,
        vec![
            "[WARN] Cron no está instalado.",
            "[OK] Instalación automática de cron finalizada.",
            "[WARN] Servicio crond no está habilitado.",
            "[OK] Servicio crond habilitado y en ejecución.",
        ]
    );
}

#[test]
fn readiness_refusal_and_failures() {
    let mut r = Readiness::new(true, false, None);
    let (lines, reqs) = run(&mut r, vec![ReadinessEvent::CronFound(false), ReadinessEvent::Answer(false)]);
    assert_eq!(lines[1], "[WARN] Usuario no autorizó instalación de cron. El agendamiento puede fallar.");
    assert_eq!(reqs[1], ReadinessRequest::Finish(Ok(())));

    let mut r = Readiness::new(true, true, Some("cron".to_string()));
    let (_, reqs) = run(&mut r, vec![ReadinessEvent::CronFound(false), ReadinessEvent::CronInstalled(Err("apt falló".to_string()))]);
    assert_eq!(reqs[0], ReadinessRequest::InstallCron);
    assert_eq!(reqs[1], ReadinessRequest::Finish(Err("No se pudo instalar cron automáticamente: apt falló".to_string())));

    let mut r = Readiness::new(true, true, Some("cron".to_string()));
    let (lines, reqs) = run(
        &mut r,
        vec![ReadinessEvent::CronFound(true), ReadinessEvent::ServiceEnabled(false), ReadinessEvent::ServiceEnabled(false)],
    );
    assert_eq!(reqs[1], ReadinessRequest::EnableService("cron".to_string()));
    assert_eq!(lines[2], "[WARN] No se pudo habilitar cron automáticamente.");
}

#[test]
fn network_targets_each_once() {
    let ips = vec!["10.0.0.1".to_string(), "10.0.0.2".to_string(), "10.0.0.1".to_string()];
    let t: Vec<(String, bool)> = ping_targets(&ips, Some("10.0.0.2")).into_iter().map(|t| (t.ip, t.manual)).collect();
    assert_eq!(t, vec![("10.0.0.1".to_string(), false), ("10.0.0.2".to_string(), false)]);
    let t: Vec<(String, bool)> = ping_targets(&vec![], Some("192.168.1.1")).into_iter().map(|t| (t.ip, t.manual)).collect();
    assert_eq!(t, vec![("192.168.1.1".to_string(), true)]);
    assert!(ping_targets(&vec![], None).is_empty());
}

#[test]
fn network_messages() {
    assert_eq!(gateway_line(Some("192.168.1.1"), true), "[OK] Gateway 192.168.1.1 responde a ping.");
    assert_eq!(gateway_line(Some("192.168.1.1"), false), "[WARN] Gateway 192.168.1.1 no responde a ping.");
    assert_eq!(gateway_line(None, false), "[WARN] No se detectó gateway por defecto.");
    let dev = PingTarget { ip: "10.0.0.9".to_string(), manual: false };
    assert_eq!(ping_lines(&dev, true, false), vec!["[OK] Ping a dispositivo 10.0.0.9 exitoso."]);
    assert_eq!(
        ping_lines(&dev, false, false)[0],
        "[WARN] 10.0.0.9 y el gateway no responden. Posible problema local de interfaz/ruta."
    );
    let man = PingTarget { ip: "10.0.0.7".to_string(), manual: true };
    assert_eq!(
        ping_lines(&man, false, true),
        vec![
            "[WARN] Ping manual a 10.0.0.7 falló. El equipo puede bloquear ICMP o estar apagado.",
            "[INFO] El dispositivo no responde a PING, intentando conexión SNMP directamente...",
        ]
    );
    assert_eq!(https_lines("cloud.nesshq.com", &Ok(())), vec!["[OK] Salida HTTPS hacia NESS disponible: cloud.nesshq.com"]);
    assert_eq!(
        https_lines("cloud.nesshq.com", &Err("timeout".to_string()))[0],
        "[WARN] Falló salida HTTPS hacia NESS (cloud.nesshq.com): timeout"
    );
    assert_eq!(manual_snmp_gate(true, false), ManualSnmpGate::Proceed);
    assert_eq!(manual_snmp_gate(false, false), ManualSnmpGate::Ask);
    assert_eq!(manual_snmp_gate(false, true), ManualSnmpGate::Skip);
    assert_eq!(sysname_line("  "), "[WARN] MDT: conexión SNMP OK pero sysName vacío. Posible falta de permisos de lectura en la MIB.");
    assert_eq!(sysname_line("core-sw"), "[OK] MDT sysName leído correctamente: core-sw");
}

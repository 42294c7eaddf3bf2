//! The decisions of the setup tester's phases: system readiness (cron and
//! its service, fixed only with consent), network health (which targets
//! are pinged and what each result means) and the SNMP read check.
//!
//! The tester runs the commands, pings and asks; it hands each result back
//! and is told what to show and do next.

use vstd::prelude::*;
use crate::text::{push_str, to_owned_string, trim, trim_spec};

verus! {

/// Where the readiness phase stands.
#[derive(Debug, Clone, Copy, PartialEq, Eq, Structural)]
pub enum ReadinessStage {
    /// Waiting for whether cron is installed.
    Start,
    /// Waiting for the answer to the cron installation question.
    CronConsent,
    /// Waiting for the cron installation's outcome.
    CronInstalling,
    /// Waiting for whether the cron service is enabled.
    ServiceCheck,
    /// Waiting for the answer to the service question.
    ServiceConsent,
    /// Waiting for whether the service is enabled after enabling and starting it.
    ServiceEnabling,
    Finished,
}

/// What the tester observed or was answered.
#[derive(Debug, PartialEq, Eq)]
pub enum ReadinessEvent {
    CronFound(bool),
    Answer(bool),
    CronInstalled(Result<(), String>),
    ServiceEnabled(bool),
}

/// What the tester is asked to do next.
#[derive(Debug, PartialEq, Eq)]
pub enum ReadinessRequest {
    /// Ask a yes/no question and hand back `Answer`.
    Ask(String),
    /// Install cron with the package manager and hand back `CronInstalled`.
    InstallCron,
    /// Tell whether the service is enabled (`ServiceEnabled`).
    CheckService(String),
    /// Enable and start the service, then tell whether it is enabled.
    EnableService(String),
    /// The phase is over; an error ends the tester.
    Finish(Result<(), String>),
}

/// The readiness phase: its settings, the cron service found, and the stage.
#[derive(Debug, Clone)]
pub struct Readiness {
    pub auto_fix: bool,
    pub assume_yes: bool,
    pub service: Option<String>,
    pub stage: ReadinessStage,
}

/// The views of a request.
pub ghost enum RequestView {
    Ask(Seq<char>),
    InstallCron,
    CheckService(Seq<char>),
    EnableService(Seq<char>),
    Finish(Result<(), Seq<char>>),
}

impl View for ReadinessRequest {
    type V = RequestView;

    open spec fn view(&self) -> RequestView {
        match self {
            ReadinessRequest::Ask(q) => RequestView::Ask(q@),
            ReadinessRequest::InstallCron => RequestView::InstallCron,
            ReadinessRequest::CheckService(s) => RequestView::CheckService(s@),
            ReadinessRequest::EnableService(s) => RequestView::EnableService(s@),
            ReadinessRequest::Finish(r) => RequestView::Finish(
                match r {
                    Ok(_) => Ok(()),
                    Err(e) => Err(e@),
                },
            ),
        }
    }
}

/// The views of a list of lines.
pub open spec fn lines_view(v: Seq<String>) -> Seq<Seq<char>> {
    v.map_values(|s: String| s@)
}

/// The service part of the phase: check the service, or say none was found.
pub open spec fn service_part(service: Option<String>) -> (Seq<Seq<char>>, RequestView, ReadinessStage) {
    match service {
        Some(name) => (Seq::empty(), RequestView::CheckService(name@), ReadinessStage::ServiceCheck),
        None => (
            seq!["[INFO] No se detectó systemd o servicio cron explícito. Verifica el scheduler manualmente."@],
            RequestView::Finish(Ok(())),
            ReadinessStage::Finished,
        ),
    }
}

/// `lines` shown before what `part` shows.
pub open spec fn prefixed(lines: Seq<Seq<char>>, part: (Seq<Seq<char>>, RequestView, ReadinessStage)) -> (
    Seq<Seq<char>>,
    RequestView,
    ReadinessStage,
) {
    (lines + part.0, part.1, part.2)
}

/// The question asked before installing cron.
pub open spec fn cron_question() -> Seq<char> {
    "Se requiere instalar cron para programación automática. ¿Autoriza la instalación ahora? [Y/n]: "@
}

/// The question asked before enabling the service.
pub open spec fn service_question(name: Seq<char>) -> Seq<char> {
    "¿Desea habilitar el servicio "@ + name + " ahora? [Y/n]: "@
}

/// What the phase shows, requests and becomes on an event. An event that
/// does not fit the stage ends the phase as it is.
pub open spec fn readiness_step(r: Readiness, e: ReadinessEvent) -> (Seq<Seq<char>>, RequestView, ReadinessStage) {
    match (r.stage, e) {
        (ReadinessStage::Start, ReadinessEvent::CronFound(true)) => prefixed(
            seq!["[OK] Cron detectado en el sistema."@],
            service_part(r.service),
        ),
        (ReadinessStage::Start, ReadinessEvent::CronFound(false)) => if !r.auto_fix {
            prefixed(
                seq![
                    "[WARN] Cron no está instalado."@,
                    "[INFO] Auto-fix deshabilitado. Recomendación: instalar cron antes de terminar."@,
                ],
                service_part(r.service),
            )
        } else if r.assume_yes {
            (seq!["[WARN] Cron no está instalado."@], RequestView::InstallCron, ReadinessStage::CronInstalling)
        } else {
            (seq!["[WARN] Cron no está instalado."@], RequestView::Ask(cron_question()), ReadinessStage::CronConsent)
        },
        (ReadinessStage::CronConsent, ReadinessEvent::Answer(true)) => (
            Seq::empty(),
            RequestView::InstallCron,
            ReadinessStage::CronInstalling,
        ),
        (ReadinessStage::CronConsent, ReadinessEvent::Answer(false)) => prefixed(
            seq!["[WARN] Usuario no autorizó instalación de cron. El agendamiento puede fallar."@],
            service_part(r.service),
        ),
        (ReadinessStage::CronInstalling, ReadinessEvent::CronInstalled(Ok(_))) => prefixed(
            seq!["[OK] Instalación automática de cron finalizada."@],
            service_part(r.service),
        ),
        (ReadinessStage::CronInstalling, ReadinessEvent::CronInstalled(Err(msg))) => (
            Seq::empty(),
            RequestView::Finish(Err("No se pudo instalar cron automáticamente: "@ + msg@)),
            ReadinessStage::Finished,
        ),
        (ReadinessStage::ServiceCheck, ReadinessEvent::ServiceEnabled(enabled)) => {
            let name = match r.service {
                Some(n) => n@,
                None => Seq::empty(),
            };
            if enabled {
                (
                    seq!["[OK] Servicio "@ + name + " habilitado."@],
                    RequestView::Finish(Ok(())),
                    ReadinessStage::Finished,
                )
            } else if !r.auto_fix {
                (
                    seq!["[WARN] Servicio "@ + name + " no está habilitado."@],
                    RequestView::Finish(Ok(())),
                    ReadinessStage::Finished,
                )
            } else if r.assume_yes {
                (
                    seq!["[WARN] Servicio "@ + name + " no está habilitado."@],
                    RequestView::EnableService(name),
                    ReadinessStage::ServiceEnabling,
                )
            } else {
                (
                    seq!["[WARN] Servicio "@ + name + " no está habilitado."@],
                    RequestView::Ask(service_question(name)),
                    ReadinessStage::ServiceConsent,
                )
            }
        },
        (ReadinessStage::ServiceConsent, ReadinessEvent::Answer(yes)) => {
            let name = match r.service {
                Some(n) => n@,
                None => Seq::empty(),
            };
            if yes {
                (Seq::empty(), RequestView::EnableService(name), ReadinessStage::ServiceEnabling)
            } else {
                (Seq::empty(), RequestView::Finish(Ok(())), ReadinessStage::Finished)
            }
        },
        (ReadinessStage::ServiceEnabling, ReadinessEvent::ServiceEnabled(enabled)) => {
            let name = match r.service {
                Some(n) => n@,
                None => Seq::empty(),
            };
            (
                seq![
                    if enabled {
                        "[OK] Servicio "@ + name + " habilitado y en ejecución."@
                    } else {
                        "[WARN] No se pudo habilitar "@ + name + " automáticamente."@
                    },
                ],
                RequestView::Finish(Ok(())),
                ReadinessStage::Finished,
            )
        },
        _ => (Seq::empty(), RequestView::Finish(Ok(())), ReadinessStage::Finished),
    }
}

impl Readiness {
    /// The phase before anything was observed; `service` is the cron
    /// service found on the host, if any.
    pub fn new(auto_fix: bool, assume_yes: bool, service: Option<String>) -> (r: Readiness)
        ensures
            r.auto_fix == auto_fix,
            r.assume_yes == assume_yes,
            r.service == service,
            r.stage == ReadinessStage::Start,
            readiness_wf(r),
    {
        Readiness { auto_fix, assume_yes, service, stage: ReadinessStage::Start }
    }

    /// Takes an event; returns the lines to show and what to do next.
    pub fn step(&mut self, e: ReadinessEvent) -> (out: (Vec<String>, ReadinessRequest))
        ensures
            (lines_view(out.0@), out.1@, final(self).stage) == readiness_step(*old(self), e),
            final(self).auto_fix == old(self).auto_fix,
            final(self).assume_yes == old(self).assume_yes,
            final(self).service == old(self).service,
    {
        let mut lines: Vec<String> = Vec::new();
        let req: ReadinessRequest;
        match (self.stage, &e) {
            (ReadinessStage::Start, ReadinessEvent::CronFound(true)) => {
                lines.push(to_owned_string("[OK] Cron detectado en el sistema."));
                req = self.enter_service_part(&mut lines);
            },
            (ReadinessStage::Start, ReadinessEvent::CronFound(false)) => {
                lines.push(to_owned_string("[WARN] Cron no está instalado."));
                if !self.auto_fix {
                    lines.push(to_owned_string("[INFO] Auto-fix deshabilitado. Recomendación: instalar cron antes de terminar."));
                    req = self.enter_service_part(&mut lines);
                } else if self.assume_yes {
                    self.stage = ReadinessStage::CronInstalling;
                    req = ReadinessRequest::InstallCron;
                } else {
                    self.stage = ReadinessStage::CronConsent;
                    req = ReadinessRequest::Ask(to_owned_string(
                        "Se requiere instalar cron para programación automática. ¿Autoriza la instalación ahora? [Y/n]: ",
                    ));
                }
            },
            (ReadinessStage::CronConsent, ReadinessEvent::Answer(true)) => {
                self.stage = ReadinessStage::CronInstalling;
                req = ReadinessRequest::InstallCron;
            },
            (ReadinessStage::CronConsent, ReadinessEvent::Answer(false)) => {
                lines.push(to_owned_string("[WARN] Usuario no autorizó instalación de cron. El agendamiento puede fallar."));
                req = self.enter_service_part(&mut lines);
            },
            (ReadinessStage::CronInstalling, ReadinessEvent::CronInstalled(Ok(_))) => {
                lines.push(to_owned_string("[OK] Instalación automática de cron finalizada."));
                req = self.enter_service_part(&mut lines);
            },
            (ReadinessStage::CronInstalling, ReadinessEvent::CronInstalled(Err(msg))) => {
                let mut m = to_owned_string("No se pudo instalar cron automáticamente: ");
                push_str(&mut m, msg.as_str());
                self.stage = ReadinessStage::Finished;
                req = ReadinessRequest::Finish(Err(m));
            },
            (ReadinessStage::ServiceCheck, ReadinessEvent::ServiceEnabled(enabled)) => {
                let name = self.service_name();
                if *enabled {
                    lines.push(service_line("[OK] Servicio ", name.as_str(), " habilitado."));
                    self.stage = ReadinessStage::Finished;
                    req = ReadinessRequest::Finish(Ok(()));
                } else {
                    lines.push(service_line("[WARN] Servicio ", name.as_str(), " no está habilitado."));
                    if !self.auto_fix {
                        self.stage = ReadinessStage::Finished;
                        req = ReadinessRequest::Finish(Ok(()));
                    } else if self.assume_yes {
                        self.stage = ReadinessStage::ServiceEnabling;
                        req = ReadinessRequest::EnableService(name);
                    } else {
                        self.stage = ReadinessStage::ServiceConsent;
                        req = ReadinessRequest::Ask(service_line("¿Desea habilitar el servicio ", name.as_str(), " ahora? [Y/n]: "));
                    }
                }
            },
            (ReadinessStage::ServiceConsent, ReadinessEvent::Answer(yes)) => {
                let name = self.service_name();
                if *yes {
                    self.stage = ReadinessStage::ServiceEnabling;
                    req = ReadinessRequest::EnableService(name);
                } else {
                    self.stage = ReadinessStage::Finished;
                    req = ReadinessRequest::Finish(Ok(()));
                }
            },
            (ReadinessStage::ServiceEnabling, ReadinessEvent::ServiceEnabled(enabled)) => {
                let name = self.service_name();
                if *enabled {
                    lines.push(service_line("[OK] Servicio ", name.as_str(), " habilitado y en ejecución."));
                } else {
                    lines.push(service_line("[WARN] No se pudo habilitar ", name.as_str(), " automáticamente."));
                }
                self.stage = ReadinessStage::Finished;
                req = ReadinessRequest::Finish(Ok(()));
            },
            _ => {
                self.stage = ReadinessStage::Finished;
                req = ReadinessRequest::Finish(Ok(()));
            },
        }
        proof {
            assert(lines_view(lines@) =~= readiness_step(*old(self), e).0);
        }
        (lines, req)
    }

    fn service_name(&self) -> (r: String)
        ensures
            r@ == match self.service {
                Some(n) => n@,
                None => Seq::<char>::empty(),
            },
    {
        match &self.service {
            Some(n) => n.clone(),
            None => String::new(),
        }
    }

    fn enter_service_part(&mut self, lines: &mut Vec<String>) -> (req: ReadinessRequest)
        ensures
            lines_view(final(lines)@) == lines_view(old(lines)@) + service_part(old(self).service).0,
            req@ == service_part(old(self).service).1,
            final(self).stage == service_part(old(self).service).2,
            final(self).auto_fix == old(self).auto_fix,
            final(self).assume_yes == old(self).assume_yes,
            final(self).service == old(self).service,
    {
        match &self.service {
            Some(name) => {
                let n = name.clone();
                self.stage = ReadinessStage::ServiceCheck;
                assert(lines_view(lines@) =~= lines_view(lines@) + Seq::<Seq<char>>::empty());
                ReadinessRequest::CheckService(n)
            },
            None => {
                let ghost before = lines_view(lines@);
                lines.push(to_owned_string(
                    "[INFO] No se detectó systemd o servicio cron explícito. Verifica el scheduler manualmente.",
                ));
                assert(lines_view(lines@) =~= before + service_part(self.service).0);
                self.stage = ReadinessStage::Finished;
                ReadinessRequest::Finish(Ok(()))
            },
        }
    }
}

fn service_line(head: &str, name: &str, tail: &str) -> (r: String)
    ensures
        r@ == head@ + name@ + tail@,
{
    let mut m = to_owned_string(head);
    push_str(&mut m, name);
    push_str(&mut m, tail);
    m
}

/// A request that changes the host.
pub open spec fn changes_host(q: RequestView) -> bool {
    q is InstallCron || q is EnableService
}

/// Stages reached only when fixing was allowed.
pub open spec fn fixing_stage(s: ReadinessStage) -> bool {
    ||| s == ReadinessStage::CronConsent
    ||| s == ReadinessStage::CronInstalling
    ||| s == ReadinessStage::ServiceConsent
    ||| s == ReadinessStage::ServiceEnabling
}

/// What the phase keeps true: it only asks about or performs a fix when
/// fixing was allowed.
pub open spec fn readiness_wf(r: Readiness) -> bool {
    fixing_stage(r.stage) ==> r.auto_fix
}

/// Nothing is installed or enabled on the host unless fixing was allowed,
/// and then only when answers are assumed or right after a yes; every
/// step keeps that so.
pub proof fn lemma_fix_needs_consent(r: Readiness, e: ReadinessEvent)
    requires
        readiness_wf(r),
    ensures
        changes_host(readiness_step(r, e).1) ==> r.auto_fix && (r.assume_yes || e == ReadinessEvent::Answer(true)),
        readiness_wf(Readiness { stage: readiness_step(r, e).2, ..r }),
{
}

// ---------------------------------------------------------------------------
// Network health
// ---------------------------------------------------------------------------

/// A target to ping: its address, and whether it was entered by hand.
#[derive(Debug, Clone)]
pub struct PingTarget {
    pub ip: String,
    pub manual: bool,
}

/// The targets with their addresses as character sequences.
pub open spec fn targets_view(v: Seq<PingTarget>) -> Seq<(Seq<char>, bool)> {
    v.map_values(|t: PingTarget| (t.ip@, t.manual))
}

/// The addresses of a list of targets.
pub open spec fn target_ips(v: Seq<(Seq<char>, bool)>) -> Seq<Seq<char>> {
    v.map_values(|t: (Seq<char>, bool)| t.0)
}

/// The device addresses, each once, in the order they first appear.
pub open spec fn device_targets(ips: Seq<Seq<char>>) -> Seq<(Seq<char>, bool)>
    decreases ips.len(),
{
    if ips.len() == 0 {
        Seq::empty()
    } else {
        let rest = device_targets(ips.drop_last());
        if target_ips(rest).contains(ips.last()) {
            rest
        } else {
            rest.push((ips.last(), false))
        }
    }
}

/// The devices' addresses, then the address entered by hand unless a
/// device already has it; each address is pinged once.
pub open spec fn ping_targets_spec(ips: Seq<Seq<char>>, manual: Option<Seq<char>>) -> Seq<(Seq<char>, bool)> {
    let d = device_targets(ips);
    match manual {
        Some(m) => if target_ips(d).contains(m) {
            d
        } else {
            d.push((m, true))
        },
        None => d,
    }
}

/// The views of a list of texts.
pub open spec fn strings_view(v: Seq<String>) -> Seq<Seq<char>> {
    v.map_values(|s: String| s@)
}

fn has_target(v: &Vec<PingTarget>, ip: &str) -> (r: bool)
    ensures
        r == target_ips(targets_view(v@)).contains(ip@),
{
    let mut i: usize = 0;
    while i < v.len()
        invariant
            i <= v@.len(),
            forall|j: int| 0 <= j < i ==> v@[j].ip@ != ip@,
        decreases v.len() - i,
    {
        if crate::text::eq_str(v[i].ip.as_str(), ip) {
            assert(target_ips(targets_view(v@))[i as int] == ip@);
            return true;
        }
        i += 1;
    }
    assert forall|j: int| 0 <= j < target_ips(targets_view(v@)).len() implies target_ips(targets_view(v@))[j] != ip@ by {
        assert(target_ips(targets_view(v@))[j] == v@[j].ip@);
    }
    false
}

/// The targets of the network check, in order, each address once.
pub fn ping_targets(device_ips: &Vec<String>, manual: Option<&str>) -> (r: Vec<PingTarget>)
    ensures
        targets_view(r@) == ping_targets_spec(
            strings_view(device_ips@),
            match manual {
                Some(m) => Some(m@),
                None => None,
            },
        ),
{
    let ghost ips = strings_view(device_ips@);
    let mut out: Vec<PingTarget> = Vec::new();
    let mut i: usize = 0;
    while i < device_ips.len()
        invariant
            i <= device_ips@.len(),
            ips == strings_view(device_ips@),
            targets_view(out@) == device_targets(ips.take(i as int)),
        decreases device_ips.len() - i,
    {
        assert(ips.take(i + 1).drop_last() =~= ips.take(i as int));
        assert(ips.take(i + 1).last() == device_ips@[i as int]@);
        if !has_target(&out, device_ips[i].as_str()) {
            let ghost before = targets_view(out@);
            out.push(PingTarget { ip: device_ips[i].clone(), manual: false });
            assert(targets_view(out@) =~= before.push((device_ips@[i as int]@, false)));
        }
        i += 1;
    }
    assert(ips.take(device_ips.len() as int) =~= ips);
    match manual {
        Some(m) => {
            if !has_target(&out, m) {
                let ghost before = targets_view(out@);
                out.push(PingTarget { ip: to_owned_string(m), manual: true });
                assert(targets_view(out@) =~= before.push((m@, true)));
            }
        },
        None => {},
    }
    out
}

/// What the gateway check shows.
pub open spec fn gateway_line_spec(gateway: Option<Seq<char>>, responds: bool) -> Seq<char> {
    match gateway {
        Some(gw) => if responds {
            "[OK] Gateway "@ + gw + " responde a ping."@
        } else {
            "[WARN] Gateway "@ + gw + " no responde a ping."@
        },
        None => "[WARN] No se detectó gateway por defecto."@,
    }
}

/// What the gateway check shows.
pub fn gateway_line(gateway: Option<&str>, responds: bool) -> (r: String)
    ensures
        r@ == gateway_line_spec(
            match gateway {
                Some(g) => Some(g@),
                None => None,
            },
            responds,
        ),
{
    match gateway {
        Some(gw) => if responds {
            service_line("[OK] Gateway ", gw, " responde a ping.")
        } else {
            service_line("[WARN] Gateway ", gw, " no responde a ping.")
        },
        None => to_owned_string("[WARN] No se detectó gateway por defecto."),
    }
}

/// The line shown when a device does not answer a ping.
pub open spec fn try_snmp_line() -> Seq<char> {
    "[INFO] El dispositivo no responde a PING, intentando conexión SNMP directamente..."@
}

/// What a ping's result shows, for a device or for the address entered by
/// hand, given whether the gateway answered.
pub open spec fn ping_lines_spec(ip: Seq<char>, manual: bool, responded: bool, gateway_ok: bool) -> Seq<Seq<char>> {
    if !manual {
        if responded {
            seq!["[OK] Ping a dispositivo "@ + ip + " exitoso."@]
        } else if gateway_ok {
            seq!["[WARN] "@ + ip + " no responde a ping. Puede estar apagado o bloqueando ICMP."@, try_snmp_line()]
        } else {
            seq!["[WARN] "@ + ip + " y el gateway no responden. Posible problema local de interfaz/ruta."@, try_snmp_line()]
        }
    } else if responded {
        seq!["[OK] Ping manual a "@ + ip + " exitoso."@]
    } else if gateway_ok {
        seq!["[WARN] Ping manual a "@ + ip + " falló. El equipo puede bloquear ICMP o estar apagado."@, try_snmp_line()]
    } else {
        seq![
            "[WARN] Ping manual a "@ + ip + " falló y el gateway tampoco responde."@,
            "[INFO] Posible problema local de interfaz/ruta. Se puede intentar SNMP manualmente."@,
        ]
    }
}

/// What a ping's result shows.
pub fn ping_lines(t: &PingTarget, responded: bool, gateway_ok: bool) -> (r: Vec<String>)
    ensures
        strings_view(r@) == ping_lines_spec(t.ip@, t.manual, responded, gateway_ok),
{
    let ip = t.ip.as_str();
    let mut out: Vec<String> = Vec::new();
    if !t.manual {
        if responded {
            out.push(service_line("[OK] Ping a dispositivo ", ip, " exitoso."));
        } else if gateway_ok {
            out.push(service_line("[WARN] ", ip, " no responde a ping. Puede estar apagado o bloqueando ICMP."));
            out.push(to_owned_string("[INFO] El dispositivo no responde a PING, intentando conexión SNMP directamente..."));
        } else {
            out.push(service_line("[WARN] ", ip, " y el gateway no responden. Posible problema local de interfaz/ruta."));
            out.push(to_owned_string("[INFO] El dispositivo no responde a PING, intentando conexión SNMP directamente..."));
        }
    } else if responded {
        out.push(service_line("[OK] Ping manual a ", ip, " exitoso."));
    } else if gateway_ok {
        out.push(service_line("[WARN] Ping manual a ", ip, " falló. El equipo puede bloquear ICMP o estar apagado."));
        out.push(to_owned_string("[INFO] El dispositivo no responde a PING, intentando conexión SNMP directamente..."));
    } else {
        out.push(service_line("[WARN] Ping manual a ", ip, " falló y el gateway tampoco responde."));
        out.push(to_owned_string("[INFO] Posible problema local de interfaz/ruta. Se puede intentar SNMP manualmente."));
    }
    assert(strings_view(out@) =~= ping_lines_spec(t.ip@, t.manual, responded, gateway_ok));
    out
}

/// What the HTTPS check towards the server shows.
pub open spec fn https_lines_spec(server: Seq<char>, result: Result<(), Seq<char>>) -> Seq<Seq<char>> {
    match result {
        Ok(_) => seq!["[OK] Salida HTTPS hacia NESS disponible: "@ + server],
        Err(e) => seq![
            "[WARN] Falló salida HTTPS hacia NESS ("@ + server + "): "@ + e,
            "Sugerencia: valide DNS, proxy y reglas de salida del firewall perimetral."@,
        ],
    }
}

/// What the HTTPS check towards the server shows.
pub fn https_lines(server: &str, result: &Result<(), String>) -> (r: Vec<String>)
    ensures
        strings_view(r@) == https_lines_spec(
            server@,
            match result {
                Ok(_) => Ok(()),
                Err(e) => Err(e@),
            },
        ),
{
    let mut out: Vec<String> = Vec::new();
    match result {
        Ok(_) => {
            let mut m = to_owned_string("[OK] Salida HTTPS hacia NESS disponible: ");
            push_str(&mut m, server);
            out.push(m);
        },
        Err(e) => {
            let mut m = to_owned_string("[WARN] Falló salida HTTPS hacia NESS (");
            push_str(&mut m, server);
            push_str(&mut m, "): ");
            push_str(&mut m, e.as_str());
            out.push(m);
            out.push(to_owned_string("Sugerencia: valide DNS, proxy y reglas de salida del firewall perimetral."));
        },
    }
    assert(strings_view(out@) =~= https_lines_spec(
        server@,
        match result {
            Ok(_) => Ok(()),
            Err(e) => Err(e@),
        },
    ));
    out
}

/// Whether the manual SNMP check goes ahead for the address entered by hand.
#[derive(Debug, Clone, Copy, PartialEq, Eq, Structural)]
pub enum ManualSnmpGate {
    /// It answered the ping: go ahead.
    Proceed,
    /// It did not answer: ask whether to try anyway.
    Ask,
    /// It did not answer and answers are assumed: skip it.
    Skip,
}

/// Whether the manual SNMP check goes ahead: at once when the address
/// answered the ping, else after asking, unless answers are assumed.
pub fn manual_snmp_gate(reachable: bool, assume_yes: bool) -> (g: ManualSnmpGate)
    ensures
        reachable ==> g == ManualSnmpGate::Proceed,
        !reachable && !assume_yes ==> g == ManualSnmpGate::Ask,
        !reachable && assume_yes ==> g == ManualSnmpGate::Skip,
{
    if reachable {
        ManualSnmpGate::Proceed
    } else if !assume_yes {
        ManualSnmpGate::Ask
    } else {
        ManualSnmpGate::Skip
    }
}

// ---------------------------------------------------------------------------
// SNMP read check
// ---------------------------------------------------------------------------

/// What reading sysName shows: a warning when it is blank (the device
/// answers but may not let the MIB be read), else the name.
pub open spec fn sysname_line_spec(rendered: Seq<char>) -> Seq<char> {
    if trim_spec(rendered).len() == 0 {
        "[WARN] MDT: conexión SNMP OK pero sysName vacío. Posible falta de permisos de lectura en la MIB."@
    } else {
        "[OK] MDT sysName leído correctamente: "@ + rendered
    }
}

/// What reading sysName shows.
pub fn sysname_line(rendered: &str) -> (r: String)
    ensures
        r@ == sysname_line_spec(rendered@),
{
    let t = trim(rendered);
    if t.as_str().is_empty() {
        to_owned_string("[WARN] MDT: conexión SNMP OK pero sysName vacío. Posible falta de permisos de lectura en la MIB.")
    } else {
        let mut m = to_owned_string("[OK] MDT sysName leído correctamente: ");
        push_str(&mut m, rendered);
        m
    }
}

} // verus!

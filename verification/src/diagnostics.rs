//! What the setup tester concludes from what it observed: the kind of an
//! SNMP failure and the advice for it, local firewall rules that drop SNMP,
//! the default gateway, and the coloured service status.

use vstd::prelude::*;
use crate::text::{
    chars_of, contains, contains_spec, eq_str, lines_of, lines_spec, lowercase, nat_decimal, push_decimal,
    push_str, replace_all, replace_str, split_char, split_words, strip_cr, starts_with_spec, string_of, to_lowercase,
    to_owned_string, trim, trim_spec, trim_start_chars, trim_start_spec, words,
};

verus! {

/// SNMP protocol version of a device.
#[derive(Debug, Clone, Copy, PartialEq, Eq, Structural)]
pub enum SnmpVersion {
    V1,
    V2c,
    V3,
}

/// The USM failure an SNMPv3 error reports.
#[derive(Debug, Clone, Copy, PartialEq, Eq, Structural)]
pub enum V3FailureKind {
    UnknownUser,
    WrongDigest,
    NotInTimeWindow,
    DecryptionError,
    UnknownEngineId,
}

/// The failure named by a lower-cased SNMPv3 error: by the usmStats counter
/// OID it reports, or by the counter's name.
pub open spec fn v3_failure_spec(e: Seq<char>) -> Option<V3FailureKind> {
    if contains_spec(e, "1.3.6.1.6.3.15.1.1.3.0"@) || contains_spec(e, "unknownusername"@) {
        Some(V3FailureKind::UnknownUser)
    } else if contains_spec(e, "1.3.6.1.6.3.15.1.1.5.0"@) || contains_spec(e, "wrongdigest"@) {
        Some(V3FailureKind::WrongDigest)
    } else if contains_spec(e, "1.3.6.1.6.3.15.1.1.2.0"@) || contains_spec(e, "notintimewindow"@) {
        Some(V3FailureKind::NotInTimeWindow)
    } else if contains_spec(e, "1.3.6.1.6.3.15.1.1.6.0"@) || contains_spec(e, "decryption"@) {
        Some(V3FailureKind::DecryptionError)
    } else if contains_spec(e, "1.3.6.1.6.3.15.1.1.4.0"@) || contains_spec(e, "unknownengineid"@) {
        Some(V3FailureKind::UnknownEngineId)
    } else {
        None
    }
}

/// The failure named by a lower-cased SNMPv3 error, if any.
pub fn detect_v3_failure_kind(lower_error: &str) -> (r: Option<V3FailureKind>)
    ensures
        r == v3_failure_spec(lower_error@),
{
    let e = lower_error;
    if contains(e, "1.3.6.1.6.3.15.1.1.3.0") || contains(e, "unknownusername") {
        return Some(V3FailureKind::UnknownUser);
    }
    if contains(e, "1.3.6.1.6.3.15.1.1.5.0") || contains(e, "wrongdigest") {
        return Some(V3FailureKind::WrongDigest);
    }
    if contains(e, "1.3.6.1.6.3.15.1.1.2.0") || contains(e, "notintimewindow") {
        return Some(V3FailureKind::NotInTimeWindow);
    }
    if contains(e, "1.3.6.1.6.3.15.1.1.6.0") || contains(e, "decryption") {
        return Some(V3FailureKind::DecryptionError);
    }
    if contains(e, "1.3.6.1.6.3.15.1.1.4.0") || contains(e, "unknownengineid") {
        return Some(V3FailureKind::UnknownEngineId);
    }
    None
}

/// The warning shown for a failure.
pub open spec fn v3_warning_spec(kind: V3FailureKind) -> Seq<char> {
    match kind {
        V3FailureKind::UnknownUser => "[WARN] SNMPv3 UnknownUser: el usuario SNMPv3 no existe o no está habilitado para esta IP."@,
        V3FailureKind::WrongDigest => "[WARN] SNMPv3 WrongDigest: usuario existe, pero auth password/protocolo (MD5/SHA/SHA2) es incorrecto."@,
        V3FailureKind::NotInTimeWindow => "[WARN] SNMPv3 NotInTimeWindow: desfase de tiempo/engine boots entre relay y dispositivo."@,
        V3FailureKind::DecryptionError => "[WARN] SNMPv3 DecryptionError: clave de privacidad incorrecta o cifrado no soportado (AES128/192/256/DES). "@,
        V3FailureKind::UnknownEngineId => "[WARN] SNMPv3 UnknownEngineID: el equipo no reconoce el engineID usado en la sesión."@,
    }
}

/// The warning shown for a failure.
pub fn v3_failure_warning(kind: V3FailureKind) -> (r: &'static str)
    ensures
        r@ == v3_warning_spec(kind),
{
    match kind {
        V3FailureKind::UnknownUser => "[WARN] SNMPv3 UnknownUser: el usuario SNMPv3 no existe o no está habilitado para esta IP.",
        V3FailureKind::WrongDigest => "[WARN] SNMPv3 WrongDigest: usuario existe, pero auth password/protocolo (MD5/SHA/SHA2) es incorrecto.",
        V3FailureKind::NotInTimeWindow => "[WARN] SNMPv3 NotInTimeWindow: desfase de tiempo/engine boots entre relay y dispositivo.",
        V3FailureKind::DecryptionError => "[WARN] SNMPv3 DecryptionError: clave de privacidad incorrecta o cifrado no soportado (AES128/192/256/DES). ",
        V3FailureKind::UnknownEngineId => "[WARN] SNMPv3 UnknownEngineID: el equipo no reconoce el engineID usado en la sesión.",
    }
}

/// Advice for a failure on a device of `vendor`.
pub open spec fn v3_guidance_spec(vendor: Seq<char>, kind: V3FailureKind) -> Seq<char> {
    if vendor == "pfsense"@ {
        match kind {
            V3FailureKind::UnknownUser => "En pfSense revise Services > SNMP > SNMPv3 Users y valide username + source address permitida."@,
            V3FailureKind::WrongDigest => "En pfSense valide Auth Protocol (SHA/MD5/SHA2) y vuelva a escribir Auth Passphrase sin espacios ocultos."@,
            V3FailureKind::NotInTimeWindow => "Sincronice hora con NTP en Status > NTP y reinicie el servicio SNMP para resincronizar engine time."@,
            V3FailureKind::DecryptionError => "Revise Priv Protocol/Passphrase en Services > SNMP. Si usa AES256 pruebe AES128 por compatibilidad."@,
            V3FailureKind::UnknownEngineId => "Reinicie el servicio SNMP y vuelva a ejecutar el Smart Tester para forzar nuevo discovery de engineID."@,
        }
    } else if vendor == "fortinet"@ {
        match kind {
            V3FailureKind::UnknownUser => "En FortiGate valide el usuario SNMPv3 en config system snmp user y permisos de consulta en la interfaz."@,
            V3FailureKind::WrongDigest => "Valide auth-proto y auth-pwd con show full-configuration system snmp user <user>."@,
            V3FailureKind::NotInTimeWindow => "Verifique NTP en el FortiGate y en el host del relay. Un drift de tiempo rompe USM."@,
            V3FailureKind::DecryptionError => "Confirme priv-proto y priv-pwd; si falla AES256, pruebe AES128 para descartar incompatibilidad."@,
            V3FailureKind::UnknownEngineId => "Regenerar sesión SNMPv3 tras cambios de firmware/config puede resolver engineID stale."@,
        }
    } else if vendor == "cisco"@ {
        match kind {
            V3FailureKind::UnknownUser => "Verifique snmp-server user <user> <group> v3 y ACL permitiendo la IP del relay."@,
            V3FailureKind::WrongDigest => "Confirme algoritmo auth (md5/sha/sha256/sha384/sha512) y secret exacto en snmp-server user."@,
            V3FailureKind::NotInTimeWindow => "Revise clock/NTP del equipo Cisco y del relay; luego reintente discovery."@,
            V3FailureKind::DecryptionError => "Valide priv aes|des y secret de privacidad. Alinee algoritmo con el configurado en el relay."@,
            V3FailureKind::UnknownEngineId => "Ejecute de nuevo el tester para refrescar engineID tras recarga de SNMP en el equipo."@,
        }
    } else if vendor == "mikrotik"@ || vendor == "mikrotik_fw"@ {
        match kind {
            V3FailureKind::UnknownUser => "En MikroTik valide SNMP users y permisos del usuario v3 para la IP de gestión del relay."@,
            V3FailureKind::WrongDigest => "Revise auth-protocol/auth-password en /snmp user print detail."@,
            V3FailureKind::NotInTimeWindow => "Sincronice NTP en RouterOS y en el relay para evitar fallo de ventana temporal USM."@,
            V3FailureKind::DecryptionError => "Alinee encryption-protocol y clave de privacidad. Pruebe AES128 antes de AES256."@,
            V3FailureKind::UnknownEngineId => "Deshabilite/habilite SNMP en RouterOS y repita discovery para actualizar engineID."@,
        }
    } else if vendor == "ubnt"@ || vendor == "c_n"@ {
        match kind {
            V3FailureKind::UnknownUser => "Valide usuario v3 y permisos de lectura SNMP en el controlador/equipo."@,
            V3FailureKind::WrongDigest => "Revise protocolo auth y contraseña en ambos extremos (equipo y relay)."@,
            V3FailureKind::NotInTimeWindow => "Configure NTP estable y reintente tras sincronización."@,
            V3FailureKind::DecryptionError => "Ajuste priv protocol y passphrase; use configuración conservadora (SHA + AES128)."@,
            V3FailureKind::UnknownEngineId => "Reiniciar SNMP en el equipo suele regenerar contexto y resolver engineID inválido."@,
        }
    } else {
        match kind {
            V3FailureKind::UnknownUser => "Valide que el usuario SNMPv3 exista y tenga permisos de lectura para el contexto consultado."@,
            V3FailureKind::WrongDigest => "Revise auth protocol (MD5/SHA/SHA2) y contraseña de autenticación."@,
            V3FailureKind::NotInTimeWindow => "Sincronice fecha/hora (NTP) en ambos extremos y repita discovery."@,
            V3FailureKind::DecryptionError => "Revise contraseña y algoritmo de privacidad (AES128/192/256/DES)."@,
            V3FailureKind::UnknownEngineId => "Refresque engine discovery reiniciando SNMP o repitiendo la sesión desde cero."@,
        }
    }
}

/// Advice for a failure on a device of `vendor`.
pub fn vendor_specific_v3_guidance(vendor: &str, kind: V3FailureKind) -> (r: &'static str)
    ensures
        r@ == v3_guidance_spec(vendor@, kind),
{
    if eq_str(vendor, "pfsense") {
        match kind {
            V3FailureKind::UnknownUser => "En pfSense revise Services > SNMP > SNMPv3 Users y valide username + source address permitida.",
            V3FailureKind::WrongDigest => "En pfSense valide Auth Protocol (SHA/MD5/SHA2) y vuelva a escribir Auth Passphrase sin espacios ocultos.",
            V3FailureKind::NotInTimeWindow => "Sincronice hora con NTP en Status > NTP y reinicie el servicio SNMP para resincronizar engine time.",
            V3FailureKind::DecryptionError => "Revise Priv Protocol/Passphrase en Services > SNMP. Si usa AES256 pruebe AES128 por compatibilidad.",
            V3FailureKind::UnknownEngineId => "Reinicie el servicio SNMP y vuelva a ejecutar el Smart Tester para forzar nuevo discovery de engineID.",
        }
    } else if eq_str(vendor, "fortinet") {
        match kind {
            V3FailureKind::UnknownUser => "En FortiGate valide el usuario SNMPv3 en config system snmp user y permisos de consulta en la interfaz.",
            V3FailureKind::WrongDigest => "Valide auth-proto y auth-pwd con show full-configuration system snmp user <user>.",
            V3FailureKind::NotInTimeWindow => "Verifique NTP en el FortiGate y en el host del relay. Un drift de tiempo rompe USM.",
            V3FailureKind::DecryptionError => "Confirme priv-proto y priv-pwd; si falla AES256, pruebe AES128 para descartar incompatibilidad.",
            V3FailureKind::UnknownEngineId => "Regenerar sesión SNMPv3 tras cambios de firmware/config puede resolver engineID stale.",
        }
    } else if eq_str(vendor, "cisco") {
        match kind {
            V3FailureKind::UnknownUser => "Verifique snmp-server user <user> <group> v3 y ACL permitiendo la IP del relay.",
            V3FailureKind::WrongDigest => "Confirme algoritmo auth (md5/sha/sha256/sha384/sha512) y secret exacto en snmp-server user.",
            V3FailureKind::NotInTimeWindow => "Revise clock/NTP del equipo Cisco y del relay; luego reintente discovery.",
            V3FailureKind::DecryptionError => "Valide priv aes|des y secret de privacidad. Alinee algoritmo con el configurado en el relay.",
            V3FailureKind::UnknownEngineId => "Ejecute de nuevo el tester para refrescar engineID tras recarga de SNMP en el equipo.",
        }
    } else if eq_str(vendor, "mikrotik") || eq_str(vendor, "mikrotik_fw") {
        match kind {
            V3FailureKind::UnknownUser => "En MikroTik valide SNMP users y permisos del usuario v3 para la IP de gestión del relay.",
            V3FailureKind::WrongDigest => "Revise auth-protocol/auth-password en /snmp user print detail.",
            V3FailureKind::NotInTimeWindow => "Sincronice NTP en RouterOS y en el relay para evitar fallo de ventana temporal USM.",
            V3FailureKind::DecryptionError => "Alinee encryption-protocol y clave de privacidad. Pruebe AES128 antes de AES256.",
            V3FailureKind::UnknownEngineId => "Deshabilite/habilite SNMP en RouterOS y repita discovery para actualizar engineID.",
        }
    } else if eq_str(vendor, "ubnt") || eq_str(vendor, "c_n") {
        match kind {
            V3FailureKind::UnknownUser => "Valide usuario v3 y permisos de lectura SNMP en el controlador/equipo.",
            V3FailureKind::WrongDigest => "Revise protocolo auth y contraseña en ambos extremos (equipo y relay).",
            V3FailureKind::NotInTimeWindow => "Configure NTP estable y reintente tras sincronización.",
            V3FailureKind::DecryptionError => "Ajuste priv protocol y passphrase; use configuración conservadora (SHA + AES128).",
            V3FailureKind::UnknownEngineId => "Reiniciar SNMP en el equipo suele regenerar contexto y resolver engineID inválido.",
        }
    } else {
        match kind {
            V3FailureKind::UnknownUser => "Valide que el usuario SNMPv3 exista y tenga permisos de lectura para el contexto consultado.",
            V3FailureKind::WrongDigest => "Revise auth protocol (MD5/SHA/SHA2) y contraseña de autenticación.",
            V3FailureKind::NotInTimeWindow => "Sincronice fecha/hora (NTP) en ambos extremos y repita discovery.",
            V3FailureKind::DecryptionError => "Revise contraseña y algoritmo de privacidad (AES128/192/256/DES).",
            V3FailureKind::UnknownEngineId => "Refresque engine discovery reiniciando SNMP o repitiendo la sesión desde cero.",
        }
    }
}

/// What the tester prints about an SNMP error from a device of `vendor` at
/// `ip`:`port`, one line each.
pub open spec fn snmp_error_advice_spec(
    vendor: Seq<char>,
    port: u16,
    ip: Seq<char>,
    version: SnmpVersion,
    err: Seq<char>,
) -> Seq<Seq<char>> {
    let lower = lowercase(err);
    match version {
        SnmpVersion::V3 => match v3_failure_spec(lower) {
            Some(k) => seq![v3_warning_spec(k), "Sugerencia vendor "@ + vendor + ": "@ + v3_guidance_spec(vendor, k)],
            None => if contains_spec(lower, "timeout"@) {
                seq!["[WARN] Timeout SNMPv3: UDP 161 bloqueado o dispositivo inaccesible."@]
            } else if contains_spec(lower, "report-pdu"@) || contains_spec(lower, "security"@) {
                seq!["[WARN] Error de seguridad SNMPv3: revisar EngineID, usuario, auth/priv y ventana de tiempo."@]
            } else {
                seq!["[WARN] Error SNMPv3: "@ + err]
            },
        },
        _ => if contains_spec(lower, "timeout"@) {
            let l1 = seq!["[WARN] Timeout SNMP: posible puerto UDP 161 bloqueado o equipo no alcanzable."@];
            let l2 = if vendor == "pfsense"@ {
                l1.push("Sugerencia: Vaya a Services > SNMP en su pfSense y habilite la interfaz LAN."@)
            } else {
                l1
            };
            l2.push("Sugerencia copy-paste: sudo nmap -sU -p "@ + nat_decimal(port as nat) + " "@ + ip)
        } else if contains_spec(lower, "status=16"@) || contains_spec(lower, "authorization"@) || contains_spec(
            lower,
            "auth"@,
        ) {
            seq!["[WARN] Authorization Error: Community String incorrecta o no permitida desde esta IP."@]
        } else {
            seq!["[WARN] Error SNMP v1/v2c: "@ + err]
        },
    }
}

/// A string made of `a` then `b`.
fn joined(a: &str, b: &str) -> (r: String)
    ensures
        r@ == a@ + b@,
{
    let mut r = to_owned_string(a);
    push_str(&mut r, b);
    r
}

/// What the tester prints about an SNMP error, one line each.
pub fn classify_snmp_error(vendor: &str, port: u16, ip: &str, version: SnmpVersion, err: &str) -> (r: Vec<String>)
    ensures
        r@.map_values(|l: String| l@) == snmp_error_advice_spec(vendor@, port, ip@, version, err@),
{
    let lower_s = to_lowercase(err);
    let lower = lower_s.as_str();
    let mut out: Vec<String> = Vec::new();
    match version {
        SnmpVersion::V3 => {
            match detect_v3_failure_kind(lower) {
                Some(k) => {
                    out.push(to_owned_string(v3_failure_warning(k)));
                    let mut m = joined("Sugerencia vendor ", vendor);
                    push_str(&mut m, ": ");
                    push_str(&mut m, vendor_specific_v3_guidance(vendor, k));
                    out.push(m);
                },
                None => {
                    if contains(lower, "timeout") {
                        out.push(to_owned_string("[WARN] Timeout SNMPv3: UDP 161 bloqueado o dispositivo inaccesible."));
                    } else if contains(lower, "report-pdu") || contains(lower, "security") {
                        out.push(
                            to_owned_string(
                                "[WARN] Error de seguridad SNMPv3: revisar EngineID, usuario, auth/priv y ventana de tiempo.",
                            ),
                        );
                    } else {
                        out.push(joined("[WARN] Error SNMPv3: ", err));
                    }
                },
            }
        },
        _ => {
            if contains(lower, "timeout") {
                out.push(
                    to_owned_string("[WARN] Timeout SNMP: posible puerto UDP 161 bloqueado o equipo no alcanzable."),
                );
                if eq_str(vendor, "pfsense") {
                    out.push(
                        to_owned_string("Sugerencia: Vaya a Services > SNMP en su pfSense y habilite la interfaz LAN."),
                    );
                }
                let mut m = to_owned_string("Sugerencia copy-paste: sudo nmap -sU -p ");
                push_decimal(&mut m, port as u64);
                push_str(&mut m, " ");
                push_str(&mut m, ip);
                out.push(m);
            } else if contains(lower, "status=16") || contains(lower, "authorization") || contains(lower, "auth") {
                out.push(
                    to_owned_string(
                        "[WARN] Authorization Error: Community String incorrecta o no permitida desde esta IP.",
                    ),
                );
            } else {
                out.push(joined("[WARN] Error SNMP v1/v2c: ", err));
            }
        },
    }
    assert(out@.map_values(|l: String| l@) =~= snmp_error_advice_spec(vendor@, port, ip@, version, err@));
    out
}

/// A firewall listing, lower-cased, that mentions port 161 and a drop or reject.
pub open spec fn snmp_drop_spec(lower: Seq<char>) -> bool {
    contains_spec(lower, "161"@) && (contains_spec(lower, "drop"@) || contains_spec(lower, "reject"@))
}

/// Whether a firewall rule listing drops or rejects SNMP (port 161), ignoring case.
pub fn contains_snmp_drop_rule(rules: &str) -> (r: bool)
    ensures
        r == snmp_drop_spec(lowercase(rules@)),
{
    let lower = to_lowercase(rules);
    let l = lower.as_str();
    contains(l, "161") && (contains(l, "drop") || contains(l, "reject"))
}

/// What the local firewall check reports, given the outputs of the tools
/// found on the host (`None` where a tool is missing).
pub open spec fn firewall_findings_spec(
    ufw_status: Option<Seq<char>>,
    firewalld_state: Option<Seq<char>>,
    iptables_input: Option<Seq<char>>,
    iptables_output: Option<Seq<char>>,
    nft_ruleset: Option<Seq<char>>,
) -> Seq<Seq<char>> {
    let f1: Seq<Seq<char>> = match ufw_status {
        Some(out) => if contains_spec(lowercase(out), "active"@) {
            let a = seq!["[INFO] UFW activo. Verifique reglas UDP/161 y respuestas de retorno."@];
            if contains_spec(out, "161"@) && (contains_spec(out, "DENY"@) || contains_spec(out, "REJECT"@)) {
                a.push("[WARN] UFW parece bloquear SNMP (UDP/161). Ajuste reglas locales."@)
            } else {
                a
            }
        } else {
            Seq::empty()
        },
        None => Seq::empty(),
    };
    let f2 = match firewalld_state {
        Some(st) => if trim_spec(st) == "running"@ {
            f1.push("[INFO] firewalld activo. Revise zona activa y puertos UDP/161."@)
        } else {
            f1
        },
        None => f1,
    };
    let f3 = match iptables_input {
        Some(inp) => if snmp_drop_spec(lowercase(inp)) {
            f2.push("[WARN] iptables INPUT contiene regla DROP/REJECT para tráfico SNMP."@)
        } else {
            f2
        },
        None => f2,
    };
    let f4 = match iptables_output {
        Some(outp) => if snmp_drop_spec(lowercase(outp)) {
            f3.push("[WARN] iptables OUTPUT contiene regla DROP/REJECT para tráfico SNMP."@)
        } else {
            f3
        },
        None => f3,
    };
    match nft_ruleset {
        Some(n) => if snmp_drop_spec(lowercase(n)) {
            f4.push("[WARN] nftables podría estar filtrando SNMP localmente (UDP/161)."@)
        } else {
            f4
        },
        None => f4,
    }
}

/// The view of an optional string slice.
pub open spec fn opt_slice_view(o: Option<&str>) -> Option<Seq<char>> {
    match o {
        Some(s) => Some(s@),
        None => None,
    }
}

/// What the local firewall check reports about SNMP, one line each.
pub fn local_firewall_findings(
    ufw_status: Option<&str>,
    firewalld_state: Option<&str>,
    iptables_input: Option<&str>,
    iptables_output: Option<&str>,
    nft_ruleset: Option<&str>,
) -> (r: Vec<String>)
    ensures
        r@.map_values(|l: String| l@) == firewall_findings_spec(
            opt_slice_view(ufw_status),
            opt_slice_view(firewalld_state),
            opt_slice_view(iptables_input),
            opt_slice_view(iptables_output),
            opt_slice_view(nft_ruleset),
        ),
{
    let mut out: Vec<String> = Vec::new();
    match ufw_status {
        Some(o) => {
            let lower = to_lowercase(o);
            if contains(lower.as_str(), "active") {
                out.push(to_owned_string("[INFO] UFW activo. Verifique reglas UDP/161 y respuestas de retorno."));
                if contains(o, "161") && (contains(o, "DENY") || contains(o, "REJECT")) {
                    out.push(to_owned_string("[WARN] UFW parece bloquear SNMP (UDP/161). Ajuste reglas locales."));
                }
            }
        },
        None => {},
    }
    match firewalld_state {
        Some(st) => {
            let t = trim(st);
            if eq_str(t.as_str(), "running") {
                out.push(to_owned_string("[INFO] firewalld activo. Revise zona activa y puertos UDP/161."));
            }
        },
        None => {},
    }
    match iptables_input {
        Some(i) => {
            if contains_snmp_drop_rule(i) {
                out.push(to_owned_string("[WARN] iptables INPUT contiene regla DROP/REJECT para tráfico SNMP."));
            }
        },
        None => {},
    }
    match iptables_output {
        Some(o) => {
            if contains_snmp_drop_rule(o) {
                out.push(to_owned_string("[WARN] iptables OUTPUT contiene regla DROP/REJECT para tráfico SNMP."));
            }
        },
        None => {},
    }
    match nft_ruleset {
        Some(n) => {
            if contains_snmp_drop_rule(n) {
                out.push(to_owned_string("[WARN] nftables podría estar filtrando SNMP localmente (UDP/161)."));
            }
        },
        None => {},
    }
    assert(out@.map_values(|l: String| l@) =~= firewall_findings_spec(
        opt_slice_view(ufw_status),
        opt_slice_view(firewalld_state),
        opt_slice_view(iptables_input),
        opt_slice_view(iptables_output),
        opt_slice_view(nft_ruleset),
    ));
    out
}

/// An answer that accepts: empty (the default), or y, yes, s, si in any case.
pub open spec fn affirmative_spec(input: Seq<char>) -> bool {
    let a = lowercase(trim_spec(input));
    a.len() == 0 || a == "y"@ || a == "yes"@ || a == "s"@ || a == "si"@
}

/// Whether an answer to a yes/no question accepts.
pub fn is_affirmative(input: &str) -> (r: bool)
    ensures
        r == affirmative_spec(input@),
{
    let t = trim(input);
    let a_s = to_lowercase(t.as_str());
    let a = a_s.as_str();
    a.is_empty() || eq_str(a, "y") || eq_str(a, "yes") || eq_str(a, "s") || eq_str(a, "si")
}

/// The gateway of a default route listing: the word after the first `via`
/// that has one.
pub open spec fn via_target(ws: Seq<Seq<char>>) -> Option<Seq<char>>
    decreases ws.len(),
{
    if ws.len() < 2 {
        None
    } else if ws[0] == "via"@ {
        Some(ws[1])
    } else {
        via_target(ws.drop_first())
    }
}

/// The default gateway in the output of `ip route show default`.
pub fn default_gateway_from_route(output: &str) -> (r: Option<String>)
    ensures
        match r {
            Some(g) => via_target(words(output@)) == Some(g@),
            None => via_target(words(output@)) is None,
        },
{
    let parts = split_words(output);
    let ghost ws = words(output@);
    let mut idx: usize = 0;
    assert(parts@.map_values(|w: String| w@).skip(0) =~= ws);
    while idx < parts.len()
        invariant
            ws == parts@.map_values(|w: String| w@),
            ws == words(output@),
            idx <= parts@.len(),
            via_target(ws) == via_target(ws.skip(idx as int)),
        decreases parts.len() - idx,
    {
        if eq_str(parts[idx].as_str(), "via") && idx + 1 < parts.len() {
            assert(ws[idx as int] == parts@[idx as int]@);
            assert(ws[idx + 1] == parts@[idx + 1]@);
            assert(ws.skip(idx as int)[0] == ws[idx as int]);
            assert(ws.skip(idx as int)[1] == ws[idx + 1]);
            return Some(parts[idx + 1].clone());
        }
        assert(ws.skip(idx as int).drop_first() =~= ws.skip(idx + 1));
        idx += 1;
    }
    None
}

/// The colour that marks a service's status line in `systemctl status`
/// output: green when running, red when inactive or dead, yellow otherwise.
pub open spec fn status_color(output: Seq<char>) -> Seq<char> {
    if contains_spec(output, "active (running)"@) {
        "\u{1b}[32m"@
    } else if contains_spec(output, "inactive"@) || contains_spec(output, "dead"@) {
        "\u{1b}[31m"@
    } else {
        "\u{1b}[33m"@
    }
}

/// One line of `systemctl status` output, coloured.
pub open spec fn colorize_line_spec(line: Seq<char>, output: Seq<char>) -> Seq<char> {
    if line.len() > 0 && line[0] == '●' {
        status_color(output) + "●"@ + "\u{1b}[0m"@ + line.drop_first()
    } else if starts_with_spec(trim_start_spec(line), "Active:"@) {
        if contains_spec(line, "active (running)"@) {
            replace_all(line, "active (running)"@, "\u{1b}[32m"@ + "active (running)"@ + "\u{1b}[0m"@)
        } else if contains_spec(line, "inactive"@) {
            replace_all(line, "inactive"@, "\u{1b}[31m"@ + "inactive"@ + "\u{1b}[0m"@)
        } else if contains_spec(line, "failed"@) {
            replace_all(line, "failed"@, "\u{1b}[31m"@ + "failed"@ + "\u{1b}[0m"@)
        } else {
            line
        }
    } else {
        line
    }
}

/// Lines, each followed by a line feed.
pub open spec fn join_lines(ls: Seq<Seq<char>>) -> Seq<char>
    decreases ls.len(),
{
    if ls.len() == 0 {
        Seq::empty()
    } else {
        join_lines(ls.drop_last()) + ls.last() + seq!['\n']
    }
}

/// `systemctl status` output with the status marker and the `Active:` state
/// coloured, line by line, without a final line feed.
pub open spec fn colorize_spec(output: Seq<char>) -> Seq<char> {
    let j = join_lines(lines_spec(output).map_values(|l: Seq<char>| colorize_line_spec(l, output)));
    if j.len() > 0 && j.last() == '\n' {
        j.drop_last()
    } else {
        j
    }
}

/// A string made of three parts.
fn concat3(a: &str, b: &str, c: &str) -> (r: String)
    ensures
        r@ == a@ + b@ + c@,
{
    let mut r = to_owned_string(a);
    push_str(&mut r, b);
    push_str(&mut r, c);
    r
}

/// One line of `systemctl status` output, coloured.
fn colorize_line(line: &str, output: &str) -> (r: String)
    ensures
        r@ == colorize_line_spec(line@, output@),
{
    let cs = chars_of(line);
    if cs.len() > 0 && cs[0] == '●' {
        let color = if contains(output, "active (running)") {
            "\u{1b}[32m"
        } else if contains(output, "inactive") || contains(output, "dead") {
            "\u{1b}[31m"
        } else {
            "\u{1b}[33m"
        };
        let mut r = concat3(color, "●", "\u{1b}[0m");
        let rest = string_of(vstd::slice::slice_subrange(cs.as_slice(), 1, cs.len()));
        assert(rest@ =~= line@.drop_first());
        push_str(&mut r, rest.as_str());
        return r;
    }
    let ts = trim_start_chars(cs.as_slice());
    let t = string_of(ts.as_slice());
    proof {
        reveal_strlit("active (running)");
        reveal_strlit("inactive");
        reveal_strlit("failed");
    }
    if crate::text::starts_with(t.as_str(), "Active:") {
        if contains(line, "active (running)") {
            let rep = concat3("\u{1b}[32m", "active (running)", "\u{1b}[0m");
            return replace_str(line, "active (running)", rep.as_str());
        } else if contains(line, "inactive") {
            let rep = concat3("\u{1b}[31m", "inactive", "\u{1b}[0m");
            return replace_str(line, "inactive", rep.as_str());
        } else if contains(line, "failed") {
            let rep = concat3("\u{1b}[31m", "failed", "\u{1b}[0m");
            return replace_str(line, "failed", rep.as_str());
        }
    }
    to_owned_string(line)
}

/// `systemctl status` output with the status marker and the `Active:` state
/// coloured (ANSI escapes), line by line, without a final line feed.
pub fn colorize_systemctl_output(output: &str) -> (r: String)
    ensures
        r@ == colorize_spec(output@),
{
    let lines = lines_of(output);
    let ghost colored = lines_spec(output@).map_values(|l: Seq<char>| colorize_line_spec(l, output@));
    let mut result: Vec<char> = Vec::new();
    let mut i: usize = 0;
    while i < lines.len()
        invariant
            lines@.map_values(|l: String| l@) == lines_spec(output@),
            colored == lines_spec(output@).map_values(|l: Seq<char>| colorize_line_spec(l, output@)),
            i <= lines@.len(),
            result@ == join_lines(colored.take(i as int)),
        decreases lines.len() - i,
    {
        let c = colorize_line(lines[i].as_str(), output);
        assert(lines[i as int]@ == lines_spec(output@)[i as int]);
        let cc = chars_of(c.as_str());
        let ghost before = result@;
        let mut k: usize = 0;
        while k < cc.len()
            invariant
                k <= cc@.len(),
                result@ == before + cc@.take(k as int),
            decreases cc.len() - k,
        {
            result.push(cc[k]);
            k += 1;
            assert(result@ =~= before + cc@.take(k as int));
        }
        assert(cc@.take(cc@.len() as int) =~= cc@);
        result.push('\n');
        assert(colored.take(i + 1).drop_last() =~= colored.take(i as int));
        assert(result@ =~= join_lines(colored.take(i + 1)));
        i += 1;
    }
    assert(colored.take(colored.len() as int) =~= colored);
    let n = result.len();
    if n > 0 && result[n - 1] == '\n' {
        result.pop();
        assert(result@ =~= join_lines(colored).drop_last());
    }
    string_of(result.as_slice())
}

// ---------------------------------------------------------------------------
// Removing the colours gives the lines back
// ---------------------------------------------------------------------------

/// No escape character in `s`.
pub open spec fn no_escape(s: Seq<char>) -> bool {
    forall|k: int| 0 <= k < s.len() ==> s[k] != '\u{1b}'
}

/// The colour escapes that the status colouring inserts.
pub open spec fn is_color_code(c: Seq<char>) -> bool {
    c == seq!['\u{1b}', '[', '3', '2', 'm'] || c == seq!['\u{1b}', '[', '3', '1', 'm']
        || c == seq!['\u{1b}', '[', '3', '3', 'm']
}

/// The escape that ends a colour.
pub open spec fn reset_code() -> Seq<char> {
    seq!['\u{1b}', '[', '0', 'm']
}

/// `s` with every colour escape (green, red, yellow, reset) taken out, read
/// from the left.
pub open spec fn strip_colors(s: Seq<char>) -> Seq<char>
    decreases s.len(),
{
    if s.len() == 0 {
        s
    } else if s.len() >= 5 && is_color_code(s.take(5)) {
        strip_colors(s.skip(5))
    } else if s.len() >= 4 && s.take(4) == reset_code() {
        strip_colors(s.skip(4))
    } else {
        seq![s[0]] + strip_colors(s.skip(1))
    }
}

/// The lines of `output` joined by line feeds (`lines().join("\n")`).
pub open spec fn joined_lines(output: Seq<char>) -> Seq<char> {
    let j = join_lines(lines_spec(output));
    if j.len() > 0 && j.last() == '\n' {
        j.drop_last()
    } else {
        j
    }
}

proof fn lemma_strip_plain_prefix(t: Seq<char>, r: Seq<char>)
    requires
        no_escape(t),
    ensures
        strip_colors(t + r) == t + strip_colors(r),
    decreases t.len(),
{
    if t.len() > 0 {
        let s = t + r;
        assert(s[0] == t[0]);
        assert(s.len() >= 5 ==> s.take(5)[0] == t[0]);
        assert(s.len() >= 4 ==> s.take(4)[0] == t[0]);
        assert(reset_code()[0] == '\u{1b}');
        assert(s.skip(1) =~= t.skip(1) + r);
        lemma_strip_plain_prefix(t.skip(1), r);
        assert(seq![t[0]] + (t.skip(1) + strip_colors(r)) =~= t + strip_colors(r));
    } else {
        assert(t + r =~= r);
        assert(t + strip_colors(r) =~= strip_colors(r));
    }
}

proof fn lemma_strip_code_prefix(c: Seq<char>, r: Seq<char>)
    requires
        is_color_code(c) || c == reset_code(),
    ensures
        strip_colors(c + r) == strip_colors(r),
{
    let s = c + r;
    if is_color_code(c) {
        assert(s.take(5) =~= c);
        assert(s.skip(5) =~= r);
    } else {
        assert(s.take(4) =~= c);
        assert(s.skip(4) =~= r);
        assert(s.len() >= 5 ==> s.take(5)[3] == 'm');
    }
}

/// The escapes as the colouring writes them.
proof fn lemma_code_literals()
    ensures
        is_color_code("\u{1b}[32m"@),
        is_color_code("\u{1b}[31m"@),
        is_color_code("\u{1b}[33m"@),
        "\u{1b}[0m"@ == reset_code(),
        "●"@ == seq!['●'],
{
    reveal_strlit("\u{1b}[32m");
    reveal_strlit("\u{1b}[31m");
    reveal_strlit("\u{1b}[33m");
    reveal_strlit("\u{1b}[0m");
    reveal_strlit("●");
    assert("\u{1b}[32m"@ =~= seq!['\u{1b}', '[', '3', '2', 'm']);
    assert("\u{1b}[31m"@ =~= seq!['\u{1b}', '[', '3', '1', 'm']);
    assert("\u{1b}[33m"@ =~= seq!['\u{1b}', '[', '3', '3', 'm']);
    assert("\u{1b}[0m"@ =~= reset_code());
    assert("●"@ =~= seq!['●']);
}

proof fn lemma_strip_replaced(line: Seq<char>, pat: Seq<char>, c: Seq<char>, r: Seq<char>)
    requires
        no_escape(line),
        no_escape(pat),
        is_color_code(c),
    ensures
        strip_colors(replace_all(line, pat, c + pat + reset_code()) + r) == line + strip_colors(r),
    decreases line.len(),
{
    let rep = c + pat + reset_code();
    if pat.len() == 0 || line.len() < pat.len() {
        lemma_strip_plain_prefix(line, r);
    } else if line.take(pat.len() as int) == pat {
        let rest = line.skip(pat.len() as int);
        assert(no_escape(rest)) by {
            assert forall|k: int| 0 <= k < rest.len() implies rest[k] != '\u{1b}' by {
                assert(rest[k] == line[k + pat.len()]);
            }
        }
        lemma_strip_replaced(rest, pat, c, r);
        let tail = replace_all(rest, pat, rep) + r;
        assert(replace_all(line, pat, rep) + r =~= c + (pat + (reset_code() + tail)));
        lemma_strip_code_prefix(c, pat + (reset_code() + tail));
        lemma_strip_plain_prefix(pat, reset_code() + tail);
        lemma_strip_code_prefix(reset_code(), tail);
        assert(pat + (rest + strip_colors(r)) =~= line + strip_colors(r));
    } else {
        let rest = line.skip(1);
        assert(no_escape(rest)) by {
            assert forall|k: int| 0 <= k < rest.len() implies rest[k] != '\u{1b}' by {
                assert(rest[k] == line[k + 1]);
            }
        }
        lemma_strip_replaced(rest, pat, c, r);
        let tail = replace_all(rest, pat, rep) + r;
        assert(replace_all(line, pat, rep) + r =~= seq![line[0]] + tail);
        lemma_strip_plain_prefix(seq![line[0]], tail);
        assert(seq![line[0]] + (rest + strip_colors(r)) =~= line + strip_colors(r));
    }
}

proof fn lemma_strip_colored_line(line: Seq<char>, output: Seq<char>, r: Seq<char>)
    requires
        no_escape(line),
    ensures
        strip_colors(colorize_line_spec(line, output) + r) == line + strip_colors(r),
{
    lemma_code_literals();
    reveal_strlit("active (running)");
    reveal_strlit("inactive");
    reveal_strlit("failed");
    if line.len() > 0 && line[0] == '●' {
        let c = status_color(output);
        let rest = line.drop_first();
        assert(no_escape(rest)) by {
            assert forall|k: int| 0 <= k < rest.len() implies rest[k] != '\u{1b}' by {
                assert(rest[k] == line[k + 1]);
            }
        }
        assert(colorize_line_spec(line, output) + r =~= c + (seq!['●'] + (reset_code() + (rest + r))));
        lemma_strip_code_prefix(c, seq!['●'] + (reset_code() + (rest + r)));
        lemma_strip_plain_prefix(seq!['●'], reset_code() + (rest + r));
        lemma_strip_code_prefix(reset_code(), rest + r);
        lemma_strip_plain_prefix(rest, r);
        assert(seq!['●'] + (rest + strip_colors(r)) =~= line + strip_colors(r));
    } else if starts_with_spec(trim_start_spec(line), "Active:"@) {
        if contains_spec(line, "active (running)"@) {
            lemma_strip_replaced(line, "active (running)"@, "\u{1b}[32m"@, r);
            assert("\u{1b}[32m"@ + "active (running)"@ + "\u{1b}[0m"@ == "\u{1b}[32m"@ + "active (running)"@ + reset_code());
        } else if contains_spec(line, "inactive"@) {
            lemma_strip_replaced(line, "inactive"@, "\u{1b}[31m"@, r);
        } else if contains_spec(line, "failed"@) {
            lemma_strip_replaced(line, "failed"@, "\u{1b}[31m"@, r);
        } else {
            lemma_strip_plain_prefix(line, r);
        }
    } else {
        lemma_strip_plain_prefix(line, r);
    }
}

proof fn lemma_strip_joined(ls: Seq<Seq<char>>, output: Seq<char>, r: Seq<char>)
    requires
        forall|i: int| 0 <= i < ls.len() ==> no_escape(#[trigger] ls[i]),
    ensures
        strip_colors(join_lines(ls.map_values(|l: Seq<char>| colorize_line_spec(l, output))) + r)
            == join_lines(ls) + strip_colors(r),
    decreases ls.len(),
{
    let cl = ls.map_values(|l: Seq<char>| colorize_line_spec(l, output));
    if ls.len() == 0 {
        assert(join_lines(cl) + r =~= r);
        assert(join_lines(ls) + strip_colors(r) =~= strip_colors(r));
    } else {
        let init = ls.drop_last();
        assert(cl.drop_last() =~= init.map_values(|l: Seq<char>| colorize_line_spec(l, output)));
        let last = ls.last();
        assert(no_escape(last));
        let tail = cl.last() + (seq!['\n'] + r);
        lemma_strip_joined(init, output, tail);
        assert(join_lines(cl) + r =~= join_lines(cl.drop_last()) + tail);
        lemma_strip_colored_line(last, output, seq!['\n'] + r);
        lemma_strip_plain_prefix(seq!['\n'], r);
        assert(join_lines(init) + (last + (seq!['\n'] + strip_colors(r))) =~= join_lines(ls) + strip_colors(r));
    }
}

proof fn lemma_split_no_escape(s: Seq<char>, sep: char)
    requires
        no_escape(s),
    ensures
        forall|i: int| 0 <= i < split_char(s, sep).len() ==> no_escape(#[trigger] split_char(s, sep)[i]),
        split_char(s, sep).len() > 0,
    decreases s.len(),
{
    if s.len() > 0 {
        let d = s.drop_last();
        assert(no_escape(d));
        lemma_split_no_escape(d, sep);
        let prev = split_char(d, sep);
        if s.last() != sep {
            let q = prev.last().push(s.last());
            assert(no_escape(q)) by {
                assert(no_escape(prev[prev.len() - 1]));
            }
            assert forall|i: int| 0 <= i < split_char(s, sep).len() implies no_escape(#[trigger] split_char(s, sep)[i]) by {
                if i < prev.len() - 1 {
                    assert(split_char(s, sep)[i] == prev[i]);
                }
            }
        } else {
            assert forall|i: int| 0 <= i < split_char(s, sep).len() implies no_escape(#[trigger] split_char(s, sep)[i]) by {
                if i < prev.len() {
                    assert(split_char(s, sep)[i] == prev[i]);
                } else {
                    assert(split_char(s, sep)[i] =~= Seq::<char>::empty());
                }
            }
        }
    }
}

proof fn lemma_lines_no_escape(output: Seq<char>)
    requires
        no_escape(output),
    ensures
        forall|i: int| 0 <= i < lines_spec(output).len() ==> no_escape(#[trigger] lines_spec(output)[i]),
{
    let p = split_char(output, '\n');
    lemma_split_no_escape(output, '\n');
    let body = p.drop_last().map_values(|l: Seq<char>| strip_cr(l));
    assert forall|i: int| 0 <= i < lines_spec(output).len() implies no_escape(#[trigger] lines_spec(output)[i]) by {
        if i < body.len() {
            assert(no_escape(p[i]));
            assert(body[i] == strip_cr(p[i]));
            assert(no_escape(strip_cr(p[i])));
        } else {
            assert(lines_spec(output)[i] == p.last());
            assert(no_escape(p[p.len() - 1]));
        }
    }
}

/// Taking the colour escapes out of the coloured `systemctl status` output
/// gives back its lines joined by line feeds, for output that holds no
/// escape character of its own.
pub proof fn lemma_colorize_strips_back(output: Seq<char>)
    requires
        no_escape(output),
    ensures
        strip_colors(colorize_spec(output)) == joined_lines(output),
{
    let ls = lines_spec(output);
    lemma_lines_no_escape(output);
    let cl = ls.map_values(|l: Seq<char>| colorize_line_spec(l, output));
    let j = join_lines(cl);
    if ls.len() == 0 {
        assert(cl.len() == 0);
        assert(strip_colors(Seq::<char>::empty()) == Seq::<char>::empty());
    } else {
        let init = ls.drop_last();
        assert(cl.drop_last() =~= init.map_values(|l: Seq<char>| colorize_line_spec(l, output)));
        assert(no_escape(ls.last()));
        lemma_strip_joined(init, output, cl.last());
        lemma_strip_colored_line(ls.last(), output, Seq::empty());
        assert(cl.last() + Seq::<char>::empty() =~= cl.last());
        assert(strip_colors(Seq::<char>::empty()) == Seq::<char>::empty());
        assert(ls.last() + Seq::<char>::empty() =~= ls.last());
        assert(j.drop_last() =~= join_lines(cl.drop_last()) + cl.last());
        assert(join_lines(ls).drop_last() =~= join_lines(init) + ls.last());
    }
}

} // verus!

//! The manual SNMP device of the setup tester: the questions asked when no
//! device file exists, how each answer fills the device, and the
//! autocompletion file handed to the installer.
//!
//! The tester asks and reads; this module decides which question comes next
//! and what an answer means.

use vstd::prelude::*;
use crate::diagnostics::{affirmative_spec, is_affirmative};
use crate::text::{
    eq_str, nat_decimal, parse_u32, parse_u32_spec, push_str, starts_with, starts_with_spec,
    to_owned_string, trim, trim_spec, u64_to_decimal,
};

verus! {

/// A device entered by hand in the setup tester.
#[derive(Debug, Clone)]
pub struct ManualDevice {
    pub device_id: String,
    pub vendor: String,
    pub ip: String,
    pub port: u16,
    pub description: String,
    pub snmp_version: String,
    pub community: String,
    pub v3_user: String,
    pub v3_auth_protocol: String,
    pub v3_auth_password: String,
    pub v3_priv_protocol: String,
    pub v3_priv_password: String,
}

/// A manual device with its texts as character sequences.
pub ghost struct DeviceView {
    pub device_id: Seq<char>,
    pub vendor: Seq<char>,
    pub ip: Seq<char>,
    pub port: u16,
    pub description: Seq<char>,
    pub snmp_version: Seq<char>,
    pub community: Seq<char>,
    pub v3_user: Seq<char>,
    pub v3_auth_protocol: Seq<char>,
    pub v3_auth_password: Seq<char>,
    pub v3_priv_protocol: Seq<char>,
    pub v3_priv_password: Seq<char>,
}

impl View for ManualDevice {
    type V = DeviceView;

    open spec fn view(&self) -> DeviceView {
        DeviceView {
            device_id: self.device_id@,
            vendor: self.vendor@,
            ip: self.ip@,
            port: self.port,
            description: self.description@,
            snmp_version: self.snmp_version@,
            community: self.community@,
            v3_user: self.v3_user@,
            v3_auth_protocol: self.v3_auth_protocol@,
            v3_auth_password: self.v3_auth_password@,
            v3_priv_protocol: self.v3_priv_protocol@,
            v3_priv_password: self.v3_priv_password@,
        }
    }
}

/// The device before any answer: SNMPv3 on port 161, SHA and AES128.
pub open spec fn defaults_spec(ip: Seq<char>) -> DeviceView {
    DeviceView {
        device_id: "manual_1"@,
        vendor: "generic"@,
        ip,
        port: 161,
        description: "Diagnóstico manual Smart Tester"@,
        snmp_version: "3"@,
        community: "public"@,
        v3_user: Seq::empty(),
        v3_auth_protocol: "SHA"@,
        v3_auth_password: Seq::empty(),
        v3_priv_protocol: "AES128"@,
        v3_priv_password: Seq::empty(),
    }
}

/// The device before any answer.
pub fn manual_device_defaults(ip: &str) -> (r: ManualDevice)
    ensures
        r@ == defaults_spec(ip@),
{
    ManualDevice {
        device_id: to_owned_string("manual_1"),
        vendor: to_owned_string("generic"),
        ip: to_owned_string(ip),
        port: 161,
        description: to_owned_string("Diagnóstico manual Smart Tester"),
        snmp_version: to_owned_string("3"),
        community: to_owned_string("public"),
        v3_user: String::new(),
        v3_auth_protocol: to_owned_string("SHA"),
        v3_auth_password: String::new(),
        v3_priv_protocol: to_owned_string("AES128"),
        v3_priv_password: String::new(),
    }
}

/// The question the form waits for, or its end.
#[derive(Debug, Clone, Copy, PartialEq, Eq, Structural)]
pub enum FormStep {
    WantsSnmp,
    Version,
    Port,
    Community,
    User,
    AuthMenu,
    ShowAuthPassword,
    AuthPassword,
    PrivMenu,
    ShowPrivPassword,
    PrivPassword,
    Done,
    Cancelled,
}

/// The questionnaire: where it is, the version chosen, whether the next
/// password is typed visibly, and the device filled so far.
#[derive(Debug, Clone)]
pub struct ManualForm {
    pub step: FormStep,
    pub version_choice: String,
    pub show_password: bool,
    pub device: ManualDevice,
}

/// A questionnaire with its texts as character sequences.
pub ghost struct FormView {
    pub step: FormStep,
    pub version_choice: Seq<char>,
    pub show_password: bool,
    pub device: DeviceView,
}

impl View for ManualForm {
    type V = FormView;

    open spec fn view(&self) -> FormView {
        FormView {
            step: self.step,
            version_choice: self.version_choice@,
            show_password: self.show_password,
            device: self.device@,
        }
    }
}

/// The form as it starts: nothing is asked when answers are assumed or no
/// one sits at a terminal.
pub open spec fn start_spec(ip: Seq<char>, assume_yes: bool, interactive: bool) -> FormView {
    FormView {
        step: if assume_yes || !interactive { FormStep::Cancelled } else { FormStep::WantsSnmp },
        version_choice: "3"@,
        show_password: true,
        device: defaults_spec(ip),
    }
}

/// The version chosen: the trimmed answer, or 3 when it is blank.
pub open spec fn version_choice_spec(input: Seq<char>) -> Seq<char> {
    if trim_spec(input).len() == 0 {
        "3"@
    } else {
        trim_spec(input)
    }
}

/// The port after its answer: the answer when it reads as a port number,
/// else the port kept.
pub open spec fn port_answer_spec(input: Seq<char>, current: u16) -> u16 {
    match parse_u32_spec(trim_spec(input)) {
        Some(p) => if p <= 65535 { p as u16 } else { current },
        None => current,
    }
}

/// The authentication protocol of a menu answer (SHA unless 1 to 7).
pub open spec fn auth_menu_spec(t: Seq<char>) -> Seq<char> {
    if t == "1"@ {
        "MD5"@
    } else if t == "3"@ {
        "SHA256"@
    } else if t == "4"@ {
        "SHA256-192"@
    } else if t == "5"@ {
        "SHA384"@
    } else if t == "6"@ {
        "SHA512"@
    } else if t == "7"@ {
        "NONE"@
    } else {
        "SHA"@
    }
}

/// The privacy protocol of a menu answer (AES128 unless 2 to 5).
pub open spec fn priv_menu_spec(t: Seq<char>) -> Seq<char> {
    if t == "2"@ {
        "AES192"@
    } else if t == "3"@ {
        "AES256"@
    } else if t == "4"@ {
        "DES"@
    } else if t == "5"@ {
        "NONE"@
    } else {
        "AES128"@
    }
}

/// `f` at another step.
pub open spec fn at_step(f: FormView, s: FormStep) -> FormView {
    FormView { step: s, ..f }
}

/// `f` with another device, at another step.
pub open spec fn with_device(f: FormView, d: DeviceView, s: FormStep) -> FormView {
    FormView { step: s, device: d, ..f }
}

/// What an answer does to the form. A blank answer to a required question
/// leaves the form as it was, so that the question is asked again.
pub open spec fn answer_spec(f: FormView, input: Seq<char>) -> FormView {
    let t = trim_spec(input);
    let d = f.device;
    match f.step {
        FormStep::WantsSnmp => at_step(f, if affirmative_spec(input) { FormStep::Version } else { FormStep::Cancelled }),
        FormStep::Version => FormView { step: FormStep::Port, version_choice: version_choice_spec(input), ..f },
        FormStep::Port => {
            let d1 = DeviceView { port: port_answer_spec(input, d.port), ..d };
            if f.version_choice == "1"@ {
                with_device(f, DeviceView { snmp_version: "1"@, ..d1 }, FormStep::Community)
            } else if f.version_choice == "3"@ {
                with_device(f, DeviceView { snmp_version: "3"@, community: Seq::empty(), ..d1 }, FormStep::User)
            } else {
                with_device(f, DeviceView { snmp_version: "2c"@, ..d1 }, FormStep::Community)
            }
        },
        FormStep::Community => with_device(
            f,
            if t.len() > 0 { DeviceView { community: t, ..d } } else { d },
            FormStep::Done,
        ),
        FormStep::User => if t.len() == 0 {
            f
        } else {
            with_device(f, DeviceView { v3_user: t, ..d }, FormStep::AuthMenu)
        },
        FormStep::AuthMenu => {
            let p = auth_menu_spec(t);
            if p == "NONE"@ {
                with_device(
                    f,
                    DeviceView {
                        v3_auth_protocol: p,
                        v3_auth_password: Seq::empty(),
                        v3_priv_protocol: "NONE"@,
                        v3_priv_password: Seq::empty(),
                        ..d
                    },
                    FormStep::Done,
                )
            } else {
                with_device(f, DeviceView { v3_auth_protocol: p, ..d }, FormStep::ShowAuthPassword)
            }
        },
        FormStep::ShowAuthPassword => FormView {
            step: FormStep::AuthPassword,
            show_password: affirmative_spec(input),
            ..f
        },
        FormStep::AuthPassword => if t.len() == 0 {
            f
        } else {
            with_device(f, DeviceView { v3_auth_password: t, ..d }, FormStep::PrivMenu)
        },
        FormStep::PrivMenu => {
            let p = priv_menu_spec(t);
            with_device(
                f,
                DeviceView { v3_priv_protocol: p, ..d },
                if p == "NONE"@ { FormStep::Done } else { FormStep::ShowPrivPassword },
            )
        },
        FormStep::ShowPrivPassword => FormView {
            step: FormStep::PrivPassword,
            show_password: affirmative_spec(input),
            ..f
        },
        FormStep::PrivPassword => if t.len() == 0 {
            f
        } else {
            with_device(f, DeviceView { v3_priv_password: t, ..d }, FormStep::Done)
        },
        FormStep::Done | FormStep::Cancelled => f,
    }
}

/// A question whose blank answer is refused.
pub open spec fn is_required(s: FormStep) -> bool {
    s == FormStep::User || s == FormStep::AuthPassword || s == FormStep::PrivPassword
}

/// The line shown after an answer, if any.
pub open spec fn notice_spec(f: FormView, input: Seq<char>) -> Option<Seq<char>> {
    if is_required(f.step) && trim_spec(input).len() == 0 {
        Some("[WARN] Este campo es obligatorio."@)
    } else if f.step == FormStep::AuthMenu && auth_menu_spec(trim_spec(input)) == "NONE"@ {
        Some("[INFO] SNMPv3 sin autenticación: privacidad desactivada automáticamente (NONE)."@)
    } else {
        None
    }
}

/// The question of each step and whether its answer is typed without echo.
pub open spec fn prompt_spec(f: FormView) -> Option<(Seq<char>, bool)> {
    match f.step {
        FormStep::WantsSnmp => Some(("¿Desea ejecutar prueba SNMP manual para esta IP? (Y/n): "@, false)),
        FormStep::Version => Some(("Versión SNMP [1/2/3] (default 3): "@, false)),
        FormStep::Port => Some(("Puerto SNMP (default 161): "@, false)),
        FormStep::Community => if f.device.snmp_version == "1"@ {
            Some(("Community SNMPv1 (default public): "@, false))
        } else {
            Some(("Community SNMPv2c (default public): "@, false))
        },
        FormStep::User => Some(("Usuario SNMPv3: "@, false)),
        FormStep::AuthMenu => Some((auth_menu_prompt(), false)),
        FormStep::ShowAuthPassword => Some(("¿Desea ver la contraseña al ingresarla? (Y/n): "@, false)),
        FormStep::AuthPassword => Some(("Auth password SNMPv3: "@, !f.show_password)),
        FormStep::PrivMenu => Some((priv_menu_prompt(), false)),
        FormStep::ShowPrivPassword => Some(("¿Desea ver la contraseña al ingresarla? (Y/n): "@, false)),
        FormStep::PrivPassword => Some(("Priv password SNMPv3: "@, !f.show_password)),
        FormStep::Done | FormStep::Cancelled => None,
    }
}

/// The authentication menu and its question.
pub open spec fn auth_menu_prompt() -> Seq<char> {
    "\nProtocolo de Autenticación:\n  1) MD5       (HMAC-MD5-96)\n  2) SHA       (HMAC-SHA1-96, recomendado)\n  3) SHA256    (HMAC-SHA2-256-128)\n  4) SHA256-192 (HMAC-SHA2-256-192)\n  5) SHA384    (HMAC-SHA2-384-192)\n  6) SHA512    (HMAC-SHA2-512-256)\n  7) NONE      (sin autenticación — no usar con privacidad)\nSelecciona 1-7 [default: 2]: "@
}

/// The privacy menu and its question.
pub open spec fn priv_menu_prompt() -> Seq<char> {
    "\nProtocolo de Privacidad (Encriptación):\n  1) AES128  (AES-128-CFB, recomendado)\n  2) AES192  (AES-192-CFB)\n  3) AES256  (AES-256-CFB)\n  4) DES     (DES-CBC, obsoleto)\n  5) NONE    (sin encriptación)\nSelecciona 1-5 [default: 1]: "@
}

/// The view of an optional static text.
pub open spec fn opt_text_view(o: Option<&'static str>) -> Option<Seq<char>> {
    match o {
        Some(s) => Some(s@),
        None => None,
    }
}

/// The view of an optional question.
pub open spec fn opt_prompt_view(o: Option<(&'static str, bool)>) -> Option<(Seq<char>, bool)> {
    match o {
        Some((s, h)) => Some((s@, h)),
        None => None,
    }
}

/// The authentication protocol of a trimmed menu answer.
fn auth_menu_choice(t: &str) -> (r: &'static str)
    ensures
        r@ == auth_menu_spec(t@),
{
    if eq_str(t, "1") {
        "MD5"
    } else if eq_str(t, "3") {
        "SHA256"
    } else if eq_str(t, "4") {
        "SHA256-192"
    } else if eq_str(t, "5") {
        "SHA384"
    } else if eq_str(t, "6") {
        "SHA512"
    } else if eq_str(t, "7") {
        "NONE"
    } else {
        "SHA"
    }
}

/// The privacy protocol of a trimmed menu answer.
fn priv_menu_choice(t: &str) -> (r: &'static str)
    ensures
        r@ == priv_menu_spec(t@),
{
    if eq_str(t, "2") {
        "AES192"
    } else if eq_str(t, "3") {
        "AES256"
    } else if eq_str(t, "4") {
        "DES"
    } else if eq_str(t, "5") {
        "NONE"
    } else {
        "AES128"
    }
}

/// A copy of a device.
fn copy_device(d: &ManualDevice) -> (r: ManualDevice)
    ensures
        r@ == d@,
{
    ManualDevice {
        device_id: d.device_id.clone(),
        vendor: d.vendor.clone(),
        ip: d.ip.clone(),
        port: d.port,
        description: d.description.clone(),
        snmp_version: d.snmp_version.clone(),
        community: d.community.clone(),
        v3_user: d.v3_user.clone(),
        v3_auth_protocol: d.v3_auth_protocol.clone(),
        v3_auth_password: d.v3_auth_password.clone(),
        v3_priv_protocol: d.v3_priv_protocol.clone(),
        v3_priv_password: d.v3_priv_password.clone(),
    }
}

impl ManualForm {
    /// The form for `ip`; it asks nothing when answers are assumed or no one
    /// sits at a terminal.
    pub fn start(ip: &str, assume_yes: bool, interactive: bool) -> (r: ManualForm)
        ensures
            r@ == start_spec(ip@, assume_yes, interactive),
    {
        ManualForm {
            step: if assume_yes || !interactive { FormStep::Cancelled } else { FormStep::WantsSnmp },
            version_choice: to_owned_string("3"),
            show_password: true,
            device: manual_device_defaults(ip),
        }
    }

    /// The question to ask now, and whether its answer is typed without
    /// echo; `None` once the form is finished.
    pub fn prompt(&self) -> (r: Option<(&'static str, bool)>)
        ensures
            opt_prompt_view(r) == prompt_spec(self@),
    {
        match self.step {
            FormStep::WantsSnmp => Some(("¿Desea ejecutar prueba SNMP manual para esta IP? (Y/n): ", false)),
            FormStep::Version => Some(("Versión SNMP [1/2/3] (default 3): ", false)),
            FormStep::Port => Some(("Puerto SNMP (default 161): ", false)),
            FormStep::Community => if eq_str(self.device.snmp_version.as_str(), "1") {
                Some(("Community SNMPv1 (default public): ", false))
            } else {
                Some(("Community SNMPv2c (default public): ", false))
            },
            FormStep::User => Some(("Usuario SNMPv3: ", false)),
            FormStep::AuthMenu => Some(("\nProtocolo de Autenticación:\n  1) MD5       (HMAC-MD5-96)\n  2) SHA       (HMAC-SHA1-96, recomendado)\n  3) SHA256    (HMAC-SHA2-256-128)\n  4) SHA256-192 (HMAC-SHA2-256-192)\n  5) SHA384    (HMAC-SHA2-384-192)\n  6) SHA512    (HMAC-SHA2-512-256)\n  7) NONE      (sin autenticación — no usar con privacidad)\nSelecciona 1-7 [default: 2]: ", false)),
            FormStep::ShowAuthPassword => Some(("¿Desea ver la contraseña al ingresarla? (Y/n): ", false)),
            FormStep::AuthPassword => Some(("Auth password SNMPv3: ", !self.show_password)),
            FormStep::PrivMenu => Some(("\nProtocolo de Privacidad (Encriptación):\n  1) AES128  (AES-128-CFB, recomendado)\n  2) AES192  (AES-192-CFB)\n  3) AES256  (AES-256-CFB)\n  4) DES     (DES-CBC, obsoleto)\n  5) NONE    (sin encriptación)\nSelecciona 1-5 [default: 1]: ", false)),
            FormStep::ShowPrivPassword => Some(("¿Desea ver la contraseña al ingresarla? (Y/n): ", false)),
            FormStep::PrivPassword => Some(("Priv password SNMPv3: ", !self.show_password)),
            FormStep::Done | FormStep::Cancelled => None,
        }
    }

    /// Takes the answer to the current question; returns the line to show
    /// after it, if any.
    pub fn answer(&mut self, input: &str) -> (notice: Option<&'static str>)
        ensures
            final(self)@ == answer_spec(old(self)@, input@),
            opt_text_view(notice) == notice_spec(old(self)@, input@),
    {
        let t = trim(input);
        match self.step {
            FormStep::WantsSnmp => {
                self.step = if is_affirmative(input) { FormStep::Version } else { FormStep::Cancelled };
                None
            },
            FormStep::Version => {
                self.version_choice = if t.as_str().is_empty() {
                    to_owned_string("3")
                } else {
                    t
                };
                self.step = FormStep::Port;
                None
            },
            FormStep::Port => {
                match parse_u32(t.as_str()) {
                    Some(p) => if p <= 65535 {
                        self.device.port = p as u16;
                    },
                    None => {},
                }
                if eq_str(self.version_choice.as_str(), "1") {
                    self.device.snmp_version = to_owned_string("1");
                    self.step = FormStep::Community;
                } else if eq_str(self.version_choice.as_str(), "3") {
                    self.device.snmp_version = to_owned_string("3");
                    self.device.community = String::new();
                    self.step = FormStep::User;
                } else {
                    self.device.snmp_version = to_owned_string("2c");
                    self.step = FormStep::Community;
                }
                None
            },
            FormStep::Community => {
                if !t.as_str().is_empty() {
                    self.device.community = t;
                }
                self.step = FormStep::Done;
                None
            },
            FormStep::User => {
                if t.as_str().is_empty() {
                    Some("[WARN] Este campo es obligatorio.")
                } else {
                    self.device.v3_user = t;
                    self.step = FormStep::AuthMenu;
                    None
                }
            },
            FormStep::AuthMenu => {
                let p = auth_menu_choice(t.as_str());
                self.device.v3_auth_protocol = to_owned_string(p);
                if eq_str(p, "NONE") {
                    self.device.v3_auth_password = String::new();
                    self.device.v3_priv_protocol = to_owned_string("NONE");
                    self.device.v3_priv_password = String::new();
                    self.step = FormStep::Done;
                    Some("[INFO] SNMPv3 sin autenticación: privacidad desactivada automáticamente (NONE).")
                } else {
                    self.step = FormStep::ShowAuthPassword;
                    None
                }
            },
            FormStep::ShowAuthPassword => {
                self.show_password = is_affirmative(input);
                self.step = FormStep::AuthPassword;
                None
            },
            FormStep::AuthPassword => {
                if t.as_str().is_empty() {
                    Some("[WARN] Este campo es obligatorio.")
                } else {
                    self.device.v3_auth_password = t;
                    self.step = FormStep::PrivMenu;
                    None
                }
            },
            FormStep::PrivMenu => {
                let p = priv_menu_choice(t.as_str());
                self.device.v3_priv_protocol = to_owned_string(p);
                self.step = if eq_str(p, "NONE") { FormStep::Done } else { FormStep::ShowPrivPassword };
                None
            },
            FormStep::ShowPrivPassword => {
                self.show_password = is_affirmative(input);
                self.step = FormStep::PrivPassword;
                None
            },
            FormStep::PrivPassword => {
                if t.as_str().is_empty() {
                    Some("[WARN] Este campo es obligatorio.")
                } else {
                    self.device.v3_priv_password = t;
                    self.step = FormStep::Done;
                    None
                }
            },
            FormStep::Done | FormStep::Cancelled => None,
        }
    }

    /// The device entered, once every question was answered.
    pub fn finished_device(&self) -> (r: Option<ManualDevice>)
        ensures
            self.step == FormStep::Done ==> (r matches Some(d) && d@ == self.device@),
            self.step != FormStep::Done ==> r is None,
    {
        if self.step == FormStep::Done {
            Some(copy_device(&self.device))
        } else {
            None
        }
    }
}

/// Steps reached only after an authentication protocol other than NONE was chosen.
pub open spec fn after_auth_choice(s: FormStep) -> bool {
    ||| s == FormStep::ShowAuthPassword
    ||| s == FormStep::AuthPassword
    ||| s == FormStep::PrivMenu
    ||| s == FormStep::ShowPrivPassword
    ||| s == FormStep::PrivPassword
}

/// The SNMPv3 questions.
pub open spec fn v3_step(s: FormStep) -> bool {
    s == FormStep::User || s == FormStep::AuthMenu || after_auth_choice(s)
}

/// What the questionnaire keeps true of its device: without authentication
/// there is no privacy and no password; a community question is only asked
/// for SNMPv1 or v2c; an SNMPv3 device carries no community.
pub open spec fn form_consistent(f: FormView) -> bool {
    let d = f.device;
    &&& d.v3_auth_protocol == "NONE"@ ==> (d.v3_priv_protocol == "NONE"@ && d.v3_auth_password.len() == 0
        && d.v3_priv_password.len() == 0)
    &&& after_auth_choice(f.step) ==> d.v3_auth_protocol != "NONE"@
    &&& f.step == FormStep::Community ==> (d.snmp_version == "1"@ || d.snmp_version == "2c"@)
    &&& (v3_step(f.step) || (f.step == FormStep::Done && d.snmp_version == "3"@)) ==> d.community.len() == 0
}

/// A new questionnaire is consistent.
pub proof fn lemma_start_consistent(ip: Seq<char>, assume_yes: bool, interactive: bool)
    ensures
        form_consistent(start_spec(ip, assume_yes, interactive)),
{
    lemma_menu_texts();
}

/// Every answer keeps the questionnaire consistent: in particular the
/// device it yields never has privacy or passwords without authentication,
/// and an SNMPv3 device never keeps a community.
pub proof fn lemma_answer_keeps_consistent(f: FormView, input: Seq<char>)
    requires
        form_consistent(f),
    ensures
        form_consistent(answer_spec(f, input)),
{
    lemma_menu_texts();
    let t = trim_spec(input);
    if f.step == FormStep::AuthMenu {
        let p = auth_menu_spec(t);
        assert(p == "NONE"@ || p != "NONE"@);
    }
}

/// The protocol and version names the questionnaire compares are distinct.
proof fn lemma_menu_texts()
    ensures
        "1"@ != "3"@,
        "2c"@ != "3"@,
        "MD5"@ != "NONE"@,
        "SHA"@ != "NONE"@,
        "SHA256"@ != "NONE"@,
        "SHA256-192"@ != "NONE"@,
        "SHA384"@ != "NONE"@,
        "SHA512"@ != "NONE"@,
{
    reveal_strlit("1");
    reveal_strlit("2c");
    reveal_strlit("3");
    reveal_strlit("NONE");
    reveal_strlit("MD5");
    reveal_strlit("SHA");
    reveal_strlit("SHA256");
    reveal_strlit("SHA256-192");
    reveal_strlit("SHA384");
    reveal_strlit("SHA512");
    assert("1"@[0] != "3"@[0]);
    assert("2c"@.len() != "3"@.len());
    assert("MD5"@.len() != "NONE"@.len());
    assert("SHA"@.len() != "NONE"@.len());
    assert("SHA256"@.len() != "NONE"@.len());
    assert("SHA256-192"@.len() != "NONE"@.len());
    assert("SHA384"@.len() != "NONE"@.len());
    assert("SHA512"@.len() != "NONE"@.len());
}

/// How many questions can still come, at most.
pub open spec fn questions_left(s: FormStep) -> nat {
    match s {
        FormStep::WantsSnmp => 11,
        FormStep::Version => 10,
        FormStep::Port => 9,
        FormStep::User => 8,
        FormStep::AuthMenu => 7,
        FormStep::ShowAuthPassword => 6,
        FormStep::AuthPassword => 5,
        FormStep::PrivMenu => 4,
        FormStep::ShowPrivPassword => 3,
        FormStep::PrivPassword => 2,
        FormStep::Community => 1,
        FormStep::Done | FormStep::Cancelled => 0,
    }
}

/// Every answer moves the questionnaire towards its end, except a blank
/// answer to a required question, which changes nothing; a finished
/// questionnaire ignores further answers.
pub proof fn lemma_answer_progress(f: FormView, input: Seq<char>)
    ensures
        answer_spec(f, input).step != f.step ==> questions_left(answer_spec(f, input).step) < questions_left(f.step),
        answer_spec(f, input).step == f.step ==> answer_spec(f, input) == f,
        answer_spec(f, input).step == f.step <==> ((is_required(f.step) && trim_spec(input).len() == 0)
            || f.step == FormStep::Done || f.step == FormStep::Cancelled),
{
}

/// A device whose data goes into the autocompletion file: entered by hand
/// (its id starts with `manual_`) and validated over SNMP.
pub open spec fn is_exported(d: DeviceView, validated: Seq<Seq<char>>) -> bool {
    starts_with_spec(d.device_id, "manual_"@) && validated.contains(d.device_id)
}

/// The exported devices, in their order.
pub open spec fn exported(ds: Seq<DeviceView>, validated: Seq<Seq<char>>) -> Seq<DeviceView>
    decreases ds.len(),
{
    if ds.len() == 0 {
        Seq::empty()
    } else if is_exported(ds.last(), validated) {
        exported(ds.drop_last(), validated).push(ds.last())
    } else {
        exported(ds.drop_last(), validated)
    }
}

/// The lines of one device: address, port and version, then the SNMPv3
/// credentials or the community.
pub open spec fn device_block(d: DeviceView) -> Seq<char> {
    let head = field_line("ip="@, d.ip) + field_line("port="@, nat_decimal(d.port as nat))
        + field_line("snmp_version="@, d.snmp_version);
    if d.snmp_version == "3"@ {
        head + field_line("v3_user="@, d.v3_user) + field_line("v3_auth_protocol="@, d.v3_auth_protocol)
            + field_line("v3_auth_password="@, d.v3_auth_password)
            + field_line("v3_priv_protocol="@, d.v3_priv_protocol)
            + field_line("v3_priv_password="@, d.v3_priv_password)
    } else {
        head + field_line("community="@, d.community)
    }
}

/// A `key=value` line.
pub open spec fn field_line(key: Seq<char>, value: Seq<char>) -> Seq<char> {
    key + value + "\n"@
}

/// The blocks of `ds`, one after the other.
pub open spec fn blocks(ds: Seq<DeviceView>) -> Seq<char>
    decreases ds.len(),
{
    if ds.len() == 0 {
        Seq::empty()
    } else {
        blocks(ds.drop_last()) + device_block(ds.last())
    }
}

/// The two comment lines that open the autocompletion file.
pub open spec fn autocomplete_header() -> Seq<char> {
    "# NESS Smart Tester — Datos de autocompletado\n"@
        + "# Generado automáticamente. Este archivo será consumido por install_relay.sh\n"@
}

/// The autocompletion file: nothing when no device is exported.
pub open spec fn autocomplete_spec(ds: Seq<DeviceView>, validated: Seq<Seq<char>>) -> Option<Seq<char>> {
    if exported(ds, validated).len() == 0 {
        None
    } else {
        Some(autocomplete_header() + blocks(exported(ds, validated)))
    }
}

/// The views of a list of devices.
pub open spec fn devices_view(v: Seq<ManualDevice>) -> Seq<DeviceView> {
    v.map_values(|d: ManualDevice| d@)
}

/// The views of a list of texts.
pub open spec fn texts_view(v: Seq<String>) -> Seq<Seq<char>> {
    v.map_values(|s: String| s@)
}

fn contains_text(v: &Vec<String>, x: &str) -> (r: bool)
    ensures
        r == texts_view(v@).contains(x@),
{
    let mut i: usize = 0;
    while i < v.len()
        invariant
            i <= v@.len(),
            forall|j: int| 0 <= j < i ==> v@[j]@ != x@,
        decreases v.len() - i,
    {
        if eq_str(v[i].as_str(), x) {
            assert(texts_view(v@)[i as int] == x@);
            return true;
        }
        i += 1;
    }
    assert forall|j: int| 0 <= j < texts_view(v@).len() implies texts_view(v@)[j] != x@ by {
        assert(texts_view(v@)[j] == v@[j]@);
    }
    false
}

fn push_field(out: &mut String, key: &str, value: &str)
    ensures
        final(out)@ == old(out)@ + field_line(key@, value@),
{
    push_str(out, key);
    push_str(out, value);
    push_str(out, "\n");
    assert(final(out)@ =~= old(out)@ + field_line(key@, value@));
}

fn push_device_block(out: &mut String, d: &ManualDevice)
    ensures
        final(out)@ == old(out)@ + device_block(d@),
{
    let ghost start = out@;
    push_field(out, "ip=", d.ip.as_str());
    let port = u64_to_decimal(d.port as u64);
    push_field(out, "port=", port.as_str());
    push_field(out, "snmp_version=", d.snmp_version.as_str());
    let ghost head = field_line("ip="@, d.ip@) + field_line("port="@, nat_decimal(d.port as nat))
        + field_line("snmp_version="@, d.snmp_version@);
    assert(out@ =~= start + head);
    if eq_str(d.snmp_version.as_str(), "3") {
        push_field(out, "v3_user=", d.v3_user.as_str());
        push_field(out, "v3_auth_protocol=", d.v3_auth_protocol.as_str());
        push_field(out, "v3_auth_password=", d.v3_auth_password.as_str());
        push_field(out, "v3_priv_protocol=", d.v3_priv_protocol.as_str());
        push_field(out, "v3_priv_password=", d.v3_priv_password.as_str());
        assert(out@ =~= start + device_block(d@));
    } else {
        push_field(out, "community=", d.community.as_str());
        assert(out@ =~= start + device_block(d@));
    }
}

/// The text of the autocompletion file for the installer, with the data of
/// the devices entered by hand that passed SNMP validation; `None` when
/// there is none.
pub fn autocomplete_content(devices: &Vec<ManualDevice>, validated_ids: &Vec<String>) -> (r: Option<String>)
    ensures
        opt_string_view(r) == autocomplete_spec(devices_view(devices@), texts_view(validated_ids@)),
{
    let ghost ds = devices_view(devices@);
    let ghost vs = texts_view(validated_ids@);
    let mut body = String::new();
    let mut count: usize = 0;
    let mut i: usize = 0;
    while i < devices.len()
        invariant
            i <= devices@.len(),
            ds == devices_view(devices@),
            vs == texts_view(validated_ids@),
            body@ == blocks(exported(ds.take(i as int), vs)),
            count == exported(ds.take(i as int), vs).len(),
            count <= i,
        decreases devices.len() - i,
    {
        let d = &devices[i];
        assert(ds.take(i + 1).drop_last() =~= ds.take(i as int));
        assert(ds.take(i + 1).last() == d@);
        let ghost before = exported(ds.take(i as int), vs);
        if starts_with(d.device_id.as_str(), "manual_") && contains_text(validated_ids, d.device_id.as_str()) {
            assert(exported(ds.take(i + 1), vs) == before.push(d@));
            assert(before.push(d@).drop_last() =~= before);
            push_device_block(&mut body, d);
            count += 1;
        } else {
            assert(exported(ds.take(i + 1), vs) == before);
        }
        i += 1;
    }
    assert(ds.take(devices.len() as int) =~= ds);
    if count == 0 {
        None
    } else {
        let mut content = to_owned_string("# NESS Smart Tester — Datos de autocompletado\n");
        push_str(&mut content, "# Generado automáticamente. Este archivo será consumido por install_relay.sh\n");
        push_str(&mut content, body.as_str());
        Some(content)
    }
}

/// The view of an optional text.
pub open spec fn opt_string_view(o: Option<String>) -> Option<Seq<char>> {
    match o {
        Some(s) => Some(s@),
        None => None,
    }
}

} // verus!

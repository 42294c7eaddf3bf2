# ness_relay

The core of the NESS Relay, an SNMP monitoring agent for firewalls,
switches, routers and access points, as a Verus library: every function in
`src/` carries a contract that Verus proves.

## Layout

- `src/snmp/` — SNMP values, the BER codec (with round-trip laws) and the
  SNMPv3 user-based security model (key localisation, HMAC authentication,
  AES-CFB and DES-CBC privacy).
- `src/profiles/` — the device profiles and the registry that picks one for
  a device (explicit vendor, sysObjectID, sysDescr, generic fallback). The
  Check Point, Palo Alto, MikroTik (router), Cisco, Juniper, Huawei and
  Datacom profiles carry their identity and sysObjectID subtree only, and
  read the standard HOST-RESOURCES and UCD-SNMP tables.
- `src/interfaces.rs`, `src/mikrotik.rs`, `src/channels.rs`, `src/bgp.rs`,
  `src/vendor_data/` — the records built from walked SNMP tables: the
  interface table, MikroTik WAN links, Netwatch probes and queues, Internet
  channels, BGP peers and the vendor sections (Fortinet, pfSense, Sophos,
  Cambium, Ubiquiti, Aruba, Extreme).
- `src/security.rs` — security alerts from the collected counters.
- `src/update/` — the update life cycle: when to check, which release
  applies, download and extraction plans, backups to remove, the reports
  sent to the server, the steps of the update cycle, and the steps of
  applying a release (nothing is installed before its SHA-256 is checked; a
  failed installer or post-install check rolls back).
- `src/tester.rs`, `src/setup_check.rs`, `src/diagnostics.rs` — the setup
  tester: its questionnaire, its phase decisions and its diagnoses.
- `src/text.rs` — the string operations the rest is written with, specified
  over character sequences.
- `app/` — the command-line program: arguments, files, HTTP, host commands,
  JSON documents and floating-point quantities. It performs the steps that
  the library chooses (update cycle, applying a release, the tester's
  questionnaire) and asks the library for the records, alerts and plans.
  The reshaping of the payload for the server and the rates and gigabyte
  totals stay here, being floating point. SNMP querying itself (the client
  and the collection loop over devices) is not part of this crate; the
  library builds records from SNMP values it is given.
- `tests/` — tests of the library on concrete values.

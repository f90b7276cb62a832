//! Wire encoding of the control-plane bodies: every request body is the
//! compact canonical JSON document of its model value (fields in
//! declaration order, optional fields omitted when absent), and the
//! response bodies are decoded from the same shapes. Decoding is proved
//! to invert encoding.

use super::model::{
    ActionType, BootSource, BootSourceView, Drive, Error, InstanceActionInfo, InstanceInfo,
    InstanceInfoView, InstanceState, RateLimiter, TokenBucket,
};
use crate::json::{
    expect_literal, lemma_expect_mismatch, lemma_expect_stands, lemma_parse_string_of_quote,
    lemma_stands_at_self, lemma_stands_at_split, parse_string_at, push_json_string, spec_expect,
    spec_parse_string, spec_quote, str_chars,
};
use crate::text::{push_dec_u64, spec_dec_u64};
use vstd::prelude::*;
use vstd::string::*;

verus! {

// --- what the encoders produce -----------------------------------------

/// The document for a token bucket: the optional initial burst, then the
/// refill interval and the capacity.
pub open spec fn spec_encode_token_bucket(t: TokenBucket) -> Seq<char> {
    "{"@ + (match t.one_time_burst {
        Some(b) => "\"one_time_burst\":"@ + spec_dec_u64(b as nat) + ","@,
        None => Seq::empty(),
    }) + "\"refill_time\":"@ + spec_dec_u64(t.refill_time as nat) + ",\"size\":"@ + spec_dec_u64(
        t.size as nat,
    ) + "}"@
}

/// The document for a rate limiter: one token bucket per configured
/// direction, both optional.
pub open spec fn spec_encode_rate_limiter(r: RateLimiter) -> Seq<char> {
    match (r.bandwidth, r.ops) {
        (Some(b), Some(o)) => "{\"bandwidth\":"@ + spec_encode_token_bucket(b) + ",\"ops\":"@
            + spec_encode_token_bucket(o) + "}"@,
        (Some(b), None) => "{\"bandwidth\":"@ + spec_encode_token_bucket(b) + "}"@,
        (None, Some(o)) => "{\"ops\":"@ + spec_encode_token_bucket(o) + "}"@,
        (None, None) => "{}"@,
    }
}

/// The document for a drive: ID, the two flags, the optional partition
/// UUID, the host path and the optional rate limiter.
pub open spec fn spec_encode_drive(d: Drive) -> Seq<char> {
    "{\"drive_id\":"@ + spec_quote(d.drive_id@) + ",\"is_read_only\":"@ + spec_encode_bool(
        d.is_read_only,
    ) + ",\"is_root_device\":"@ + spec_encode_bool(d.is_root_device) + (match d.partuuid {
        Some(u) => ",\"partuuid\":"@ + spec_quote(u@),
        None => Seq::empty(),
    }) + ",\"path_on_host\":"@ + spec_quote(d.path_on_host@) + (match d.rate_limiter {
        Some(r) => ",\"rate_limiter\":"@ + spec_encode_rate_limiter(r),
        None => Seq::empty(),
    }) + "}"@
}

/// The document for a boot source: the optional kernel arguments, the
/// optional initrd path — omitted entirely when absent — and the kernel
/// image path.
pub open spec fn spec_encode_boot_source(b: BootSourceView) -> Seq<char> {
    "{"@ + (match b.boot_args {
        Some(a) => "\"boot_args\":"@ + spec_quote(a) + ","@,
        None => Seq::empty(),
    }) + (match b.initrd_path {
        Some(p) => "\"initrd_path\":"@ + spec_quote(p) + ","@,
        None => Seq::empty(),
    }) + "\"kernel_image_path\":"@ + spec_quote(b.kernel_image_path) + "}"@
}

/// The name of an action, as the server spells it.
pub open spec fn spec_action_name(a: ActionType) -> Seq<char> {
    match a {
        ActionType::FlushMetrics => "FlushMetrics"@,
        ActionType::InstanceStart => "InstanceStart"@,
        ActionType::SendCtrlAltDel => "SendCtrlAltDel"@,
    }
}

/// The document for an action trigger: the wrapper object around the
/// action name.
pub open spec fn spec_encode_instance_action_info(a: ActionType) -> Seq<char> {
    "{\"action_type\":"@ + spec_quote(spec_action_name(a)) + "}"@
}

/// The two JSON boolean words.
pub open spec fn spec_encode_bool(b: bool) -> Seq<char> {
    if b {
        "true"@
    } else {
        "false"@
    }
}

// --- the encoders -------------------------------------------------------

/// Appends `true` or `false`.
fn push_bool(out: &mut String, b: bool)
    ensures
        final(out)@ == old(out)@ + spec_encode_bool(b),
{
    if b {
        out.append("true");
    } else {
        out.append("false");
    }
}

impl TokenBucket {
    /// The request-body document for this token bucket.
    pub fn encode_json(&self) -> (r: String)
        ensures
            r@ == spec_encode_token_bucket(*self),
    {
        let mut out = String::new();
        out.append("{");
        match &self.one_time_burst {
            Some(b) => {
                out.append("\"one_time_burst\":");
                push_dec_u64(&mut out, *b);
                out.append(",");
            },
            None => {},
        }
        out.append("\"refill_time\":");
        push_dec_u64(&mut out, self.refill_time);
        out.append(",\"size\":");
        push_dec_u64(&mut out, self.size);
        out.append("}");
        proof {
            assert(out@ =~= spec_encode_token_bucket(*self));
        }
        out
    }
}

impl RateLimiter {
    /// The request-body document for this rate limiter.
    pub fn encode_json(&self) -> (r: String)
        ensures
            r@ == spec_encode_rate_limiter(*self),
    {
        let mut out = String::new();
        match (&self.bandwidth, &self.ops) {
            (Some(b), Some(o)) => {
                out.append("{\"bandwidth\":");
                let eb = b.encode_json();
                out.append(eb.as_str());
                out.append(",\"ops\":");
                let eo = o.encode_json();
                out.append(eo.as_str());
                out.append("}");
            },
            (Some(b), None) => {
                out.append("{\"bandwidth\":");
                let eb = b.encode_json();
                out.append(eb.as_str());
                out.append("}");
            },
            (None, Some(o)) => {
                out.append("{\"ops\":");
                let eo = o.encode_json();
                out.append(eo.as_str());
                out.append("}");
            },
            (None, None) => {
                out.append("{}");
            },
        }
        proof {
            assert(out@ =~= spec_encode_rate_limiter(*self));
        }
        out
    }
}

impl Drive {
    /// The request-body document for this drive.
    pub fn encode_json(&self) -> (r: String)
        ensures
            r@ == spec_encode_drive(*self),
    {
        let mut out = String::new();
        out.append("{\"drive_id\":");
        push_json_string(&mut out, self.drive_id.as_str());
        out.append(",\"is_read_only\":");
        push_bool(&mut out, self.is_read_only);
        out.append(",\"is_root_device\":");
        push_bool(&mut out, self.is_root_device);
        match &self.partuuid {
            Some(u) => {
                out.append(",\"partuuid\":");
                push_json_string(&mut out, u.as_str());
            },
            None => {},
        }
        out.append(",\"path_on_host\":");
        push_json_string(&mut out, self.path_on_host.as_str());
        match &self.rate_limiter {
            Some(r) => {
                out.append(",\"rate_limiter\":");
                let er = r.encode_json();
                out.append(er.as_str());
            },
            None => {},
        }
        out.append("}");
        proof {
            assert(out@ =~= spec_encode_drive(*self));
        }
        out
    }
}

impl BootSource {
    /// The request-body document for this boot source. A boot source
    /// without an initrd path has no initrd field in the document at
    /// all, and likewise for absent kernel arguments.
    pub fn encode_json(&self) -> (r: String)
        ensures
            r@ == spec_encode_boot_source(self@),
    {
        let mut out = String::new();
        out.append("{");
        match &self.boot_args {
            Some(a) => {
                out.append("\"boot_args\":");
                push_json_string(&mut out, a.as_str());
                out.append(",");
            },
            None => {},
        }
        match &self.initrd_path {
            Some(p) => {
                out.append("\"initrd_path\":");
                push_json_string(&mut out, p.as_str());
                out.append(",");
            },
            None => {},
        }
        out.append("\"kernel_image_path\":");
        push_json_string(&mut out, self.kernel_image_path.as_str());
        out.append("}");
        proof {
            assert(out@ =~= spec_encode_boot_source(self@));
        }
        out
    }
}

// --- the decoders -------------------------------------------------------

/// An optional leading object field `"key":<string>,` at `pos`: yields
/// the value and the position after the comma, or no value and `pos`
/// itself when the key does not stand there.
pub open spec fn spec_field_opt_trailing(s: Seq<char>, pos: int, key: Seq<char>) -> Option<
    (Option<Seq<char>>, int),
> {
    match spec_expect(s, pos, key) {
        None => Some((None, pos)),
        Some(p) => match spec_parse_string(s, p) {
            None => None,
            Some(t) => match spec_expect(s, t.1, ","@) {
                None => None,
                Some(p2) => Some((Some(t.0), p2)),
            },
        },
    }
}

/// The boot source named by a whole document: the optional kernel
/// arguments, the optional initrd path and the kernel image path, in
/// that order, with nothing after the closing brace.
pub open spec fn spec_decode_boot_source(s: Seq<char>) -> Option<BootSourceView> {
    match spec_expect(s, 0, "{"@) {
        None => None,
        Some(p0) => match spec_field_opt_trailing(s, p0, "\"boot_args\":"@) {
            None => None,
            Some(fa) => match spec_field_opt_trailing(s, fa.1, "\"initrd_path\":"@) {
                None => None,
                Some(fi) => match spec_expect(s, fi.1, "\"kernel_image_path\":"@) {
                    None => None,
                    Some(p3) => match spec_parse_string(s, p3) {
                        None => None,
                        Some(tk) => match spec_expect(s, tk.1, "}"@) {
                            None => None,
                            Some(p5) => if p5 == s.len() {
                                Some(
                                    BootSourceView {
                                        boot_args: fa.0,
                                        initrd_path: fi.0,
                                        kernel_image_path: tk.0,
                                    },
                                )
                            } else {
                                None
                            },
                        },
                    },
                },
            },
        },
    }
}

/// The fault message carried by an error body.
pub open spec fn spec_decode_fault(s: Seq<char>) -> Option<Seq<char>> {
    match spec_expect(s, 0, "{\"fault_message\":"@) {
        None => None,
        Some(p0) => match spec_parse_string(s, p0) {
            None => None,
            Some(t) => match spec_expect(s, t.1, "}"@) {
                None => None,
                Some(p1) => if p1 == s.len() {
                    Some(t.0)
                } else {
                    None
                },
            },
        },
    }
}

/// The instance state named by its wire spelling.
pub open spec fn spec_state_of_name(n: Seq<char>) -> Option<InstanceState> {
    if n == "Not started"@ {
        Some(InstanceState::NotStarted)
    } else if n == "Running"@ {
        Some(InstanceState::Running)
    } else if n == "Paused"@ {
        Some(InstanceState::Paused)
    } else {
        None
    }
}

/// The instance information carried by a whole document: application
/// name, instance ID, state and hypervisor version, in that order.
pub open spec fn spec_decode_instance_info(s: Seq<char>) -> Option<InstanceInfoView> {
    match spec_expect(s, 0, "{\"app_name\":"@) {
        None => None,
        Some(p0) => match spec_parse_string(s, p0) {
            None => None,
            Some(ta) => match spec_expect(s, ta.1, ",\"id\":"@) {
                None => None,
                Some(p1) => match spec_parse_string(s, p1) {
                    None => None,
                    Some(ti) => match spec_expect(s, ti.1, ",\"state\":"@) {
                        None => None,
                        Some(p2) => match spec_parse_string(s, p2) {
                            None => None,
                            Some(ts) => match spec_state_of_name(ts.0) {
                                None => None,
                                Some(st) => match spec_expect(s, ts.1, ",\"vmm_version\":"@) {
                                    None => None,
                                    Some(p3) => match spec_parse_string(s, p3) {
                                        None => None,
                                        Some(tv) => match spec_expect(s, tv.1, "}"@) {
                                            None => None,
                                            Some(p4) => if p4 == s.len() {
                                                Some(
                                                    InstanceInfoView {
                                                        app_name: ta.0,
                                                        id: ti.0,
                                                        state: st,
                                                        vmm_version: tv.0,
                                                    },
                                                )
                                            } else {
                                                None
                                            },
                                        },
                                    },
                                },
                            },
                        },
                    },
                },
            },
        },
    }
}

/// An optional leading object field, as executable code.
fn field_opt_trailing(buf: &Vec<char>, pos: usize, key: &str) -> (r: Option<
    (Option<String>, usize),
>)
    requires
        pos <= buf@.len(),
    ensures
        ({
            let sr = spec_field_opt_trailing(buf@, pos as int, key@);
            match r {
                Some(p) => sr matches Some(sp) && (match (p.0, sp.0) {
                    (Some(v), Some(sv)) => v@ == sv,
                    (None, None) => true,
                    _ => false,
                }) && p.1 as int == sp.1 && p.1 <= buf@.len(),
                None => sr is None,
            }
        }),
{
    let p = match expect_literal(buf, pos, key) {
        Some(p) => p,
        None => { return Some((None, pos)) },
    };
    let (v, p2) = match parse_string_at(buf, p) {
        Some(t) => t,
        None => { return None },
    };
    let p3 = match expect_literal(buf, p2, ",") {
        Some(p3) => p3,
        None => { return None },
    };
    Some((Some(v), p3))
}

impl BootSource {
    /// Reads a boot source back from its canonical document.
    pub fn decode_json(s: &str) -> (r: Option<BootSource>)
        ensures
            (r is Some) == (spec_decode_boot_source(s@) is Some),
            r matches Some(b) ==> spec_decode_boot_source(s@) == Some(b@),
    {
        let buf = str_chars(s);
        let p0 = match expect_literal(&buf, 0, "{") {
            Some(p) => p,
            None => { return None },
        };
        let (boot_args, p1) = match field_opt_trailing(&buf, p0, "\"boot_args\":") {
            Some(t) => t,
            None => { return None },
        };
        let (initrd_path, p2) = match field_opt_trailing(&buf, p1, "\"initrd_path\":") {
            Some(t) => t,
            None => { return None },
        };
        let p3 = match expect_literal(&buf, p2, "\"kernel_image_path\":") {
            Some(p) => p,
            None => { return None },
        };
        let (kernel_image_path, p4) = match parse_string_at(&buf, p3) {
            Some(t) => t,
            None => { return None },
        };
        let p5 = match expect_literal(&buf, p4, "}") {
            Some(p) => p,
            None => { return None },
        };
        if p5 != buf.len() {
            return None;
        }
        Some(BootSource { boot_args, initrd_path, kernel_image_path })
    }
}

impl Error {
    /// Reads the fault message back from an error body.
    pub fn decode_json(s: &str) -> (r: Option<Error>)
        ensures
            (r is Some) == (spec_decode_fault(s@) is Some),
            r matches Some(e) ==> spec_decode_fault(s@) == Some(e.fault_message@),
    {
        let buf = str_chars(s);
        let p0 = match expect_literal(&buf, 0, "{\"fault_message\":") {
            Some(p) => p,
            None => { return None },
        };
        let (fault_message, p1) = match parse_string_at(&buf, p0) {
            Some(t) => t,
            None => { return None },
        };
        let p2 = match expect_literal(&buf, p1, "}") {
            Some(p) => p,
            None => { return None },
        };
        if p2 != buf.len() {
            return None;
        }
        Some(Error { fault_message })
    }
}

/// The instance state named by its wire spelling, as executable code.
fn state_of_name(n: &String) -> (r: Option<InstanceState>)
    ensures
        r == spec_state_of_name(n@),
{
    let not_started = "Not started".to_owned();
    let running = "Running".to_owned();
    let paused = "Paused".to_owned();
    if *n == not_started {
        Some(InstanceState::NotStarted)
    } else if *n == running {
        Some(InstanceState::Running)
    } else if *n == paused {
        Some(InstanceState::Paused)
    } else {
        None
    }
}

impl InstanceInfo {
    /// Reads instance information back from its canonical document.
    pub fn decode_json(s: &str) -> (r: Option<InstanceInfo>)
        ensures
            (r is Some) == (spec_decode_instance_info(s@) is Some),
            r matches Some(info) ==> spec_decode_instance_info(s@) == Some(info@),
    {
        let buf = str_chars(s);
        let p0 = match expect_literal(&buf, 0, "{\"app_name\":") {
            Some(p) => p,
            None => { return None },
        };
        let (app_name, p1) = match parse_string_at(&buf, p0) {
            Some(t) => t,
            None => { return None },
        };
        let p2 = match expect_literal(&buf, p1, ",\"id\":") {
            Some(p) => p,
            None => { return None },
        };
        let (id, p3) = match parse_string_at(&buf, p2) {
            Some(t) => t,
            None => { return None },
        };
        let p4 = match expect_literal(&buf, p3, ",\"state\":") {
            Some(p) => p,
            None => { return None },
        };
        let (state_name, p5) = match parse_string_at(&buf, p4) {
            Some(t) => t,
            None => { return None },
        };
        let state = match state_of_name(&state_name) {
            Some(st) => st,
            None => { return None },
        };
        let p6 = match expect_literal(&buf, p5, ",\"vmm_version\":") {
            Some(p) => p,
            None => { return None },
        };
        let (vmm_version, p7) = match parse_string_at(&buf, p6) {
            Some(t) => t,
            None => { return None },
        };
        let p8 = match expect_literal(&buf, p7, "}") {
            Some(p) => p,
            None => { return None },
        };
        if p8 != buf.len() {
            return None;
        }
        Some(InstanceInfo { app_name, id, state, vmm_version })
    }
}

// --- decoding inverts encoding ------------------------------------------

/// The document that the server sends an error as.
pub open spec fn spec_encode_fault(m: Seq<char>) -> Seq<char> {
    "{\"fault_message\":"@ + spec_quote(m) + "}"@
}

/// The wire spelling of an instance state.
pub open spec fn spec_state_name(st: InstanceState) -> Seq<char> {
    match st {
        InstanceState::NotStarted => "Not started"@,
        InstanceState::Running => "Running"@,
        InstanceState::Paused => "Paused"@,
    }
}

/// The document that the server sends instance information as.
pub open spec fn spec_encode_instance_info(v: InstanceInfoView) -> Seq<char> {
    "{\"app_name\":"@ + spec_quote(v.app_name) + ",\"id\":"@ + spec_quote(v.id) + ",\"state\":"@
        + spec_quote(spec_state_name(v.state)) + ",\"vmm_version\":"@ + spec_quote(v.vmm_version)
        + "}"@
}

/// The wire spelling of a state names that state and no other.
proof fn lemma_state_name_roundtrip(st: InstanceState)
    ensures
        spec_state_of_name(spec_state_name(st)) == Some(st),
{
    reveal_strlit("Not started");
    reveal_strlit("Running");
    reveal_strlit("Paused");
    assert("Not started"@.len() == 11);
    assert("Running"@.len() == 7);
    assert("Paused"@.len() == 6);
    match st {
        InstanceState::NotStarted => {
            assert(spec_state_name(st) == "Not started"@);
        },
        InstanceState::Running => {
            assert("Running"@ != "Not started"@);
        },
        InstanceState::Paused => {
            assert("Paused"@ != "Not started"@);
            assert("Paused"@ != "Running"@);
        },
    }
}

/// Decoding a fault body inverts encoding it: for every message, the
/// canonical error document gives back exactly that message.
pub proof fn lemma_fault_roundtrip(m: Seq<char>)
    ensures
        spec_decode_fault(spec_encode_fault(m)) == Some(m),
{
    let s = spec_encode_fault(m);
    let key = "{\"fault_message\":"@;
    let q = spec_quote(m);
    lemma_stands_at_self(s);
    lemma_stands_at_split(s, 0, key + q, "}"@);
    lemma_stands_at_split(s, 0, key, q);
    lemma_expect_stands(s, 0, key);
    lemma_parse_string_of_quote(m, s, key.len() as int);
    lemma_expect_stands(s, key.len() + q.len() as int, "}"@);
}

/// Decoding a boot source inverts encoding it, for every boot source: in
/// particular, one whose initrd path is absent is encoded without any
/// initrd field, and decoding that document reproduces the absent initrd
/// path.
pub proof fn lemma_boot_source_roundtrip(b: BootSourceView)
    ensures
        spec_decode_boot_source(spec_encode_boot_source(b)) == Some(b),
{
    reveal_strlit("{");
    reveal_strlit("}");
    reveal_strlit(",");
    reveal_strlit("\"boot_args\":");
    reveal_strlit("\"initrd_path\":");
    reveal_strlit("\"kernel_image_path\":");
    let s = spec_encode_boot_source(b);
    let key_a = "\"boot_args\":"@;
    let key_i = "\"initrd_path\":"@;
    let key_k = "\"kernel_image_path\":"@;
    let sega = match b.boot_args {
        Some(a) => key_a + spec_quote(a) + ","@,
        None => Seq::<char>::empty(),
    };
    let segi = match b.initrd_path {
        Some(p) => key_i + spec_quote(p) + ","@,
        None => Seq::<char>::empty(),
    };
    let kq = spec_quote(b.kernel_image_path);
    assert(s == "{"@ + sega + segi + key_k + kq + "}"@);
    lemma_stands_at_self(s);
    lemma_stands_at_split(s, 0, "{"@ + sega + segi + key_k + kq, "}"@);
    lemma_stands_at_split(s, 0, "{"@ + sega + segi + key_k, kq);
    lemma_stands_at_split(s, 0, "{"@ + sega + segi, key_k);
    lemma_stands_at_split(s, 0, "{"@ + sega, segi);
    lemma_stands_at_split(s, 0, "{"@, sega);
    let pa: int = 1;
    let pi: int = pa + sega.len();
    let pk: int = pi + segi.len();
    lemma_expect_stands(s, 0, "{"@);
    // the optional kernel-arguments field
    match b.boot_args {
        Some(a) => {
            lemma_stands_at_split(s, pa, key_a + spec_quote(a), ","@);
            lemma_stands_at_split(s, pa, key_a, spec_quote(a));
            lemma_expect_stands(s, pa, key_a);
            lemma_parse_string_of_quote(a, s, pa + key_a.len());
            lemma_expect_stands(s, pa + key_a.len() + spec_quote(a).len(), ","@);
            assert(spec_field_opt_trailing(s, pa, key_a) == Some((Some(a), pi)));
        },
        None => {
            // the boot-arguments key does not stand here: the next text
            // starts with the initrd key or the kernel key, and differs
            // from it in the second character
            match b.initrd_path {
                Some(p) => {
                    lemma_stands_at_split(s, pi, key_i + spec_quote(p), ","@);
                    lemma_stands_at_split(s, pi, key_i, spec_quote(p));
                    assert(s[pa + 1] == key_i[1]);
                },
                None => {
                    assert(s[pa + 1] == key_k[1]);
                },
            }
            lemma_expect_mismatch(s, pa, key_a, 1);
            assert(spec_field_opt_trailing(s, pa, key_a) == Some((None::<Seq<char>>, pi)));
        },
    }
    // the optional initrd field
    match b.initrd_path {
        Some(p) => {
            lemma_stands_at_split(s, pi, key_i + spec_quote(p), ","@);
            lemma_stands_at_split(s, pi, key_i, spec_quote(p));
            lemma_expect_stands(s, pi, key_i);
            lemma_parse_string_of_quote(p, s, pi + key_i.len());
            lemma_expect_stands(s, pi + key_i.len() + spec_quote(p).len(), ","@);
            assert(spec_field_opt_trailing(s, pi, key_i) == Some((Some(p), pk)));
        },
        None => {
            assert(s[pi + 1] == key_k[1]);
            lemma_expect_mismatch(s, pi, key_i, 1);
            assert(spec_field_opt_trailing(s, pi, key_i) == Some((None::<Seq<char>>, pk)));
        },
    }
    // the kernel image path and the end of the document
    lemma_expect_stands(s, pk, key_k);
    lemma_parse_string_of_quote(b.kernel_image_path, s, pk + key_k.len());
    lemma_expect_stands(s, pk + key_k.len() + kq.len(), "}"@);
    assert(pk + key_k.len() + kq.len() + 1 == s.len());
    assert(spec_decode_boot_source(s) == Some(
        BootSourceView {
            boot_args: b.boot_args,
            initrd_path: b.initrd_path,
            kernel_image_path: b.kernel_image_path,
        },
    ));
    assert(BootSourceView {
        boot_args: b.boot_args,
        initrd_path: b.initrd_path,
        kernel_image_path: b.kernel_image_path,
    } =~= b);
}

/// Decoding instance information inverts encoding it.
pub proof fn lemma_instance_info_roundtrip(v: InstanceInfoView)
    ensures
        spec_decode_instance_info(spec_encode_instance_info(v)) == Some(v),
{
    let s = spec_encode_instance_info(v);
    let key_a = "{\"app_name\":"@;
    let key_i = ",\"id\":"@;
    let key_s = ",\"state\":"@;
    let key_v = ",\"vmm_version\":"@;
    let qa = spec_quote(v.app_name);
    let qi = spec_quote(v.id);
    let qs = spec_quote(spec_state_name(v.state));
    let qv = spec_quote(v.vmm_version);
    assert(s == key_a + qa + key_i + qi + key_s + qs + key_v + qv + "}"@);
    lemma_stands_at_self(s);
    lemma_stands_at_split(s, 0, key_a + qa + key_i + qi + key_s + qs + key_v + qv, "}"@);
    lemma_stands_at_split(s, 0, key_a + qa + key_i + qi + key_s + qs + key_v, qv);
    lemma_stands_at_split(s, 0, key_a + qa + key_i + qi + key_s + qs, key_v);
    lemma_stands_at_split(s, 0, key_a + qa + key_i + qi + key_s, qs);
    lemma_stands_at_split(s, 0, key_a + qa + key_i + qi, key_s);
    lemma_stands_at_split(s, 0, key_a + qa + key_i, qi);
    lemma_stands_at_split(s, 0, key_a + qa, key_i);
    lemma_stands_at_split(s, 0, key_a, qa);
    let p0: int = key_a.len() as int;
    let p1: int = p0 + qa.len();
    let p2: int = p1 + key_i.len();
    let p3: int = p2 + qi.len();
    let p4: int = p3 + key_s.len();
    let p5: int = p4 + qs.len();
    let p6: int = p5 + key_v.len();
    let p7: int = p6 + qv.len();
    lemma_expect_stands(s, 0, key_a);
    lemma_parse_string_of_quote(v.app_name, s, p0);
    lemma_expect_stands(s, p1, key_i);
    lemma_parse_string_of_quote(v.id, s, p2);
    lemma_expect_stands(s, p3, key_s);
    lemma_parse_string_of_quote(spec_state_name(v.state), s, p4);
    lemma_state_name_roundtrip(v.state);
    lemma_expect_stands(s, p5, key_v);
    lemma_parse_string_of_quote(v.vmm_version, s, p6);
    lemma_expect_stands(s, p7, "}"@);
    assert(p7 + 1 == s.len()) by {
        reveal_strlit("}");
    }
    assert(spec_decode_instance_info(s) == Some(
        InstanceInfoView {
            app_name: v.app_name,
            id: v.id,
            state: v.state,
            vmm_version: v.vmm_version,
        },
    ));
    assert(InstanceInfoView {
        app_name: v.app_name,
        id: v.id,
        state: v.state,
        vmm_version: v.vmm_version,
    } =~= v);
}

impl InstanceActionInfo {
    /// The request-body document for this action wrapper.
    pub fn encode_json(&self) -> (r: String)
        ensures
            r@ == spec_encode_instance_action_info(self.action_type),
    {
        let mut out = String::new();
        out.append("{\"action_type\":");
        match self.action_type {
            ActionType::FlushMetrics => push_json_string(&mut out, "FlushMetrics"),
            ActionType::InstanceStart => push_json_string(&mut out, "InstanceStart"),
            ActionType::SendCtrlAltDel => push_json_string(&mut out, "SendCtrlAltDel"),
        }
        out.append("}");
        proof {
            assert(out@ =~= spec_encode_instance_action_info(self.action_type));
        }
        out
    }
}

} // verus!

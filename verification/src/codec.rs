use vstd::prelude::*;

use crate::config::{
    AccessPointConfiguration, ApCfgModel, AuthMethod, ClientConfiguration, ClientModel,
    check_ap_cfg, check_client, valid_ap_cfg, valid_client,
};

verus! {

/// The byte encoding under which the driver persists its configuration:
/// one record per role, each a short header followed by the SSID and the
/// passphrase.

/// The wire tag of a security mode.
pub open spec fn auth_tag(a: AuthMethod) -> u8 {
    match a {
        AuthMethod::Open => 0u8,
        AuthMethod::Wep => 1u8,
        AuthMethod::Wpa => 2u8,
        AuthMethod::Wpa2Personal => 3u8,
        AuthMethod::Wpa3Personal => 4u8,
    }
}

/// The security mode of a wire tag, if the tag is known.
pub open spec fn auth_of_tag(t: u8) -> Option<AuthMethod> {
    if t == 0 {
        Some(AuthMethod::Open)
    } else if t == 1 {
        Some(AuthMethod::Wep)
    } else if t == 2 {
        Some(AuthMethod::Wpa)
    } else if t == 3 {
        Some(AuthMethod::Wpa2Personal)
    } else if t == 4 {
        Some(AuthMethod::Wpa3Personal)
    } else {
        None
    }
}

/// The record a station part is persisted as: auth tag, SSID length, SSID,
/// then the passphrase as the remainder.
pub open spec fn spec_encode_client(c: ClientModel) -> Seq<u8> {
    seq![auth_tag(c.auth_method), c.ssid.len() as u8] + c.ssid + c.password
}

/// The station part a record holds, if the record is well formed and the
/// part it holds is internally consistent.
pub open spec fn spec_decode_client(b: Seq<u8>) -> Option<ClientModel> {
    if b.len() < 2 {
        None
    } else {
        match auth_of_tag(b[0]) {
            None => None,
            Some(auth) => {
                let slen = b[1] as int;
                if 2 + slen <= b.len() {
                    let m = ClientModel {
                        ssid: b.subrange(2, 2 + slen),
                        password: b.subrange(2 + slen, b.len() as int),
                        auth_method: auth,
                    };
                    if valid_client(m) {
                        Some(m)
                    } else {
                        None
                    }
                } else {
                    None
                }
            },
        }
    }
}

/// The record an access-point part is persisted as: auth tag, channel,
/// hidden flag, SSID length, SSID, then the passphrase as the remainder.
pub open spec fn spec_encode_ap(a: ApCfgModel) -> Seq<u8> {
    seq![
        auth_tag(a.auth_method),
        a.channel,
        if a.ssid_hidden {
            1u8
        } else {
            0u8
        },
        a.ssid.len() as u8,
    ] + a.ssid + a.password
}

/// The access-point part a record holds, if the record is well formed and
/// the part it holds is internally consistent.
pub open spec fn spec_decode_ap(b: Seq<u8>) -> Option<ApCfgModel> {
    if b.len() < 4 {
        None
    } else {
        match auth_of_tag(b[0]) {
            None => None,
            Some(auth) => {
                let slen = b[3] as int;
                if 4 + slen <= b.len() {
                    let m = ApCfgModel {
                        ssid: b.subrange(4, 4 + slen),
                        ssid_hidden: b[2] == 1,
                        channel: b[1],
                        auth_method: auth,
                        password: b.subrange(4 + slen, b.len() as int),
                    };
                    if valid_ap_cfg(m) {
                        Some(m)
                    } else {
                        None
                    }
                } else {
                    None
                }
            },
        }
    }
}

/// Law: decoding is a left inverse of encoding, for every internally
/// consistent station part.
pub proof fn lemma_client_round_trip(c: ClientModel)
    requires
        valid_client(c),
    ensures
        spec_decode_client(spec_encode_client(c)) == Some(c),
{
    let b = spec_encode_client(c);
    assert(b.len() == 2 + c.ssid.len() + c.password.len());
    assert(b[0] == auth_tag(c.auth_method));
    assert(b[1] == c.ssid.len() as u8);
    assert(auth_of_tag(auth_tag(c.auth_method)) == Some(c.auth_method));
    let slen = b[1] as int;
    assert(slen == c.ssid.len());
    assert(b.subrange(2, 2 + slen) =~= c.ssid);
    assert(b.subrange(2 + slen, b.len() as int) =~= c.password);
}

/// Law: decoding is a left inverse of encoding, for every internally
/// consistent access-point part.
pub proof fn lemma_ap_round_trip(a: ApCfgModel)
    requires
        valid_ap_cfg(a),
    ensures
        spec_decode_ap(spec_encode_ap(a)) == Some(a),
{
    let b = spec_encode_ap(a);
    assert(b.len() == 4 + a.ssid.len() + a.password.len());
    assert(b[0] == auth_tag(a.auth_method));
    assert(b[1] == a.channel);
    assert(b[2] == if a.ssid_hidden { 1u8 } else { 0u8 });
    assert(b[3] == a.ssid.len() as u8);
    assert(auth_of_tag(auth_tag(a.auth_method)) == Some(a.auth_method));
    let slen = b[3] as int;
    assert(slen == a.ssid.len());
    assert(b.subrange(4, 4 + slen) =~= a.ssid);
    assert(b.subrange(4 + slen, b.len() as int) =~= a.password);
}

/// The wire tag of a security mode.
pub fn auth_tag_exec(a: AuthMethod) -> (r: u8)
    ensures
        r == auth_tag(a),
{
    match a {
        AuthMethod::Open => 0,
        AuthMethod::Wep => 1,
        AuthMethod::Wpa => 2,
        AuthMethod::Wpa2Personal => 3,
        AuthMethod::Wpa3Personal => 4,
    }
}

/// The security mode of a wire tag, if the tag is known.
pub fn auth_of_tag_exec(t: u8) -> (r: Option<AuthMethod>)
    ensures
        r == auth_of_tag(t),
{
    if t == 0 {
        Some(AuthMethod::Open)
    } else if t == 1 {
        Some(AuthMethod::Wep)
    } else if t == 2 {
        Some(AuthMethod::Wpa)
    } else if t == 3 {
        Some(AuthMethod::Wpa2Personal)
    } else if t == 4 {
        Some(AuthMethod::Wpa3Personal)
    } else {
        None
    }
}

fn push_all(out: &mut Vec<u8>, v: &Vec<u8>)
    ensures
        final(out)@ == old(out)@ + v@,
{
    let mut i: usize = 0;
    while i < v.len()
        invariant
            i <= v.len(),
            out@ == old(out)@ + v@.subrange(0, i as int),
        decreases v.len() - i,
    {
        out.push(v[i]);
        assert(out@ =~= old(out)@ + v@.subrange(0, i + 1 as int));
        i += 1;
    }
    proof {
        assert(old(out)@ + v@.subrange(0, v@.len() as int) =~= old(out)@ + v@);
    }
}

fn copy_range(b: &Vec<u8>, from: usize, to: usize) -> (r: Vec<u8>)
    requires
        from <= to <= b@.len(),
    ensures
        r@ == b@.subrange(from as int, to as int),
{
    let mut out: Vec<u8> = Vec::new();
    let mut i: usize = from;
    while i < to
        invariant
            from <= i <= to <= b@.len(),
            out@ == b@.subrange(from as int, i as int),
        decreases to - i,
    {
        out.push(b[i]);
        assert(out@ =~= b@.subrange(from as int, i + 1 as int));
        i += 1;
    }
    out
}

/// Persist a station part as its record.
pub fn encode_client(c: &ClientConfiguration) -> (r: Vec<u8>)
    requires
        valid_client(c@),
    ensures
        r@ == spec_encode_client(c@),
{
    let mut out: Vec<u8> = Vec::new();
    out.push(auth_tag_exec(c.auth_method));
    out.push(c.ssid.len() as u8);
    push_all(&mut out, &c.ssid);
    push_all(&mut out, &c.password);
    proof {
        assert(out@ =~= spec_encode_client(c@));
    }
    out
}

/// Persist an access-point part as its record.
pub fn encode_ap(a: &AccessPointConfiguration) -> (r: Vec<u8>)
    requires
        valid_ap_cfg(a@),
    ensures
        r@ == spec_encode_ap(a@),
{
    let mut out: Vec<u8> = Vec::new();
    out.push(auth_tag_exec(a.auth_method));
    out.push(a.channel);
    out.push(if a.ssid_hidden { 1 } else { 0 });
    out.push(a.ssid.len() as u8);
    push_all(&mut out, &a.ssid);
    push_all(&mut out, &a.password);
    proof {
        assert(out@ =~= spec_encode_ap(a@));
    }
    out
}

/// The model of a decoded station part, if any.
pub open spec fn client_opt_model(r: Option<ClientConfiguration>) -> Option<ClientModel> {
    match r {
        Some(c) => Some(c@),
        None => None,
    }
}

/// The model of a decoded access-point part, if any.
pub open spec fn ap_opt_model(r: Option<AccessPointConfiguration>) -> Option<ApCfgModel> {
    match r {
        Some(a) => Some(a@),
        None => None,
    }
}

/// Recover a station part from its record, exactly as
/// [`spec_decode_client`] states.
pub fn decode_client(b: &Vec<u8>) -> (r: Option<ClientConfiguration>)
    ensures
        client_opt_model(r) == spec_decode_client(b@),
{
    if b.len() < 2 {
        return None;
    }
    let auth = match auth_of_tag_exec(b[0]) {
        Some(a) => a,
        None => {
            return None;
        },
    };
    let slen = b[1] as usize;
    if b.len() < 2 + slen {
        return None;
    }
    let c = ClientConfiguration {
        ssid: copy_range(b, 2, 2 + slen),
        password: copy_range(b, 2 + slen, b.len()),
        auth_method: auth,
    };
    if check_client(&c) {
        Some(c)
    } else {
        None
    }
}

/// Recover an access-point part from its record, exactly as
/// [`spec_decode_ap`] states.
pub fn decode_ap(b: &Vec<u8>) -> (r: Option<AccessPointConfiguration>)
    ensures
        ap_opt_model(r) == spec_decode_ap(b@),
{
    if b.len() < 4 {
        return None;
    }
    let auth = match auth_of_tag_exec(b[0]) {
        Some(a) => a,
        None => {
            return None;
        },
    };
    let slen = b[3] as usize;
    if b.len() < 4 + slen {
        return None;
    }
    let a = AccessPointConfiguration {
        ssid: copy_range(b, 4, 4 + slen),
        ssid_hidden: b[2] == 1,
        channel: b[1],
        auth_method: auth,
        password: copy_range(b, 4 + slen, b.len()),
    };
    if check_ap_cfg(&a) {
        Some(a)
    } else {
        None
    }
}

} // verus!

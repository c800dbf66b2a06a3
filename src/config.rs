//! The access controller's configuration, read once at startup and validated before use.
use vstd::prelude::*;
use vstd::utf8::encode_utf8;

verus! {

/// The settings a deployment boots the controller with.
pub struct Initialize {
    pub tg_token: String,
    pub chain: u64,
    pub contract: String,
    pub min_amount: u64,
    pub priv_chat_id: i64,
    pub url: String,
}

/// The validated, immutable configuration of the controller.
pub struct GateConfig {
    pub bot_token: String,
    pub chain_id: u64,
    pub contract: [u8; 20],
    pub min_amount: u64,
    pub private_chat_id: i64,
    pub base_url: String,
    pub challenge: Vec<u8>,
}

/// Which setting is missing or malformed.
#[derive(Clone, Copy, Debug, PartialEq, Eq, Structural)]
pub enum ConfigError {
    EmptyBotToken,
    MalformedContract,
    EmptyBaseUrl,
    EmptyChallenge,
}

/// The value of an ASCII hex digit.
pub open spec fn hex_value(b: u8) -> Option<u8> {
    if 0x30 <= b <= 0x39 {
        Some((b - 0x30) as u8)
    } else if 0x61 <= b <= 0x66 {
        Some((b - 0x61 + 10) as u8)
    } else if 0x41 <= b <= 0x46 {
        Some((b - 0x41 + 10) as u8)
    } else {
        None
    }
}

/// The digits of an address text: without its `0x` prefix, if it has one.
pub open spec fn address_digits(t: Seq<u8>) -> Seq<u8> {
    if t.len() >= 2 && t[0] == 0x30 && t[1] == 0x78 {
        t.subrange(2, t.len() as int)
    } else {
        t
    }
}

/// The 20 bytes that an address text (40 hex digits, optionally after `0x`) stands for.
pub open spec fn address_of(t: Seq<u8>) -> Option<Seq<u8>> {
    let d = address_digits(t);
    if d.len() == 40 && forall|i: int| 0 <= i < 40 ==> (#[trigger] hex_value(d[i])) is Some {
        Some(
            Seq::new(
                20,
                |i: int| (hex_value(d[2 * i])->0 * 16 + hex_value(d[2 * i + 1])->0) as u8,
            ),
        )
    } else {
        None
    }
}

fn hex_digit(b: u8) -> (r: Option<u8>)
    ensures
        r == hex_value(b),
        r matches Some(v) ==> v < 16,
{
    if 0x30 <= b && b <= 0x39 {
        Some(b - 0x30)
    } else if 0x61 <= b && b <= 0x66 {
        Some(b - 0x61 + 10)
    } else if 0x41 <= b && b <= 0x46 {
        Some(b - 0x41 + 10)
    } else {
        None
    }
}

/// Reads a contract address from its hex text.
pub fn parse_address(text: &str) -> (r: Option<[u8; 20]>)
    ensures
        match r {
            Some(a) => address_of(encode_utf8(text@)) == Some(a@),
            None => address_of(encode_utf8(text@)) is None,
        },
{
    let t = text.as_bytes();
    let start: usize = if t.len() >= 2 && t[0] == 0x30 && t[1] == 0x78 {
        2
    } else {
        0
    };
    let ghost d = address_digits(t@);
    assert(d =~= t@.subrange(start as int, t@.len() as int));
    if t.len() - start != 40 {
        return None;
    }
    let mut out: [u8; 20] = [0u8; 20];
    let mut i: usize = 0;
    while i < 20
        invariant
            i <= 20,
            t.len() == start + 40,
            t@ == encode_utf8(text@),
            d == address_digits(t@),
            d =~= t@.subrange(start as int, t@.len() as int),
            forall|j: int| 0 <= j < 2 * i ==> (#[trigger] hex_value(d[j])) is Some,
            forall|j: int|
                0 <= j < i ==> out@[j] == (hex_value(d[2 * j])->0 * 16 + hex_value(
                    d[2 * j + 1],
                )->0) as u8,
        decreases 20 - i,
    {
        let hi_digit = hex_digit(t[start + 2 * i]);
        let lo_digit = hex_digit(t[start + 2 * i + 1]);
        if hi_digit.is_none() || lo_digit.is_none() {
            assert(hex_value(d[2 * i as int]) is None || hex_value(d[2 * i + 1]) is None);
            return None;
        }
        let hi = hi_digit.unwrap();
        let lo = lo_digit.unwrap();
        out[i] = hi * 16 + lo;
        i = i + 1;
    }
    assert(out@ =~= address_of(t@)->0);
    Some(out)
}

/// Which setting, if any, keeps a configuration from being served.
pub open spec fn config_fault(init: Initialize, challenge: Seq<u8>) -> Option<ConfigError> {
    if init.tg_token@.len() == 0 {
        Some(ConfigError::EmptyBotToken)
    } else if address_of(encode_utf8(init.contract@)) is None {
        Some(ConfigError::MalformedContract)
    } else if init.url@.len() == 0 {
        Some(ConfigError::EmptyBaseUrl)
    } else if challenge.len() == 0 {
        Some(ConfigError::EmptyChallenge)
    } else {
        None
    }
}

impl GateConfig {
    /// Validates the boot settings and the challenge text; a controller is only
    /// built from a configuration that passed.
    pub fn new(init: Initialize, challenge: Vec<u8>) -> (r: Result<GateConfig, ConfigError>)
        ensures
            match config_fault(init, challenge@) {
                Some(e) => r == Err::<GateConfig, ConfigError>(e),
                None => r matches Ok(c) && c.bot_token@ == init.tg_token@ && c.chain_id == init.chain
                    && address_of(encode_utf8(init.contract@)) == Some(c.contract@)
                    && c.min_amount == init.min_amount && c.private_chat_id == init.priv_chat_id
                    && c.base_url@ == init.url@ && c.challenge@ == challenge@,
            },
    {
        if init.tg_token.as_str().is_empty() {
            return Err(ConfigError::EmptyBotToken);
        }
        let contract = match parse_address(init.contract.as_str()) {
            Some(a) => a,
            None => {
                return Err(ConfigError::MalformedContract);
            },
        };
        if init.url.as_str().is_empty() {
            return Err(ConfigError::EmptyBaseUrl);
        }
        if challenge.len() == 0 {
            return Err(ConfigError::EmptyChallenge);
        }
        Ok(
            GateConfig {
                bot_token: init.tg_token,
                chain_id: init.chain,
                contract,
                min_amount: init.min_amount,
                private_chat_id: init.priv_chat_id,
                base_url: init.url,
                challenge,
            },
        )
    }
}

} // verus!

//! The settings of the service: defaults, overrides from the environment,
//! and validation.

use vstd::prelude::*;

use crate::error::VerifierError;
use crate::error::VerifierErrorView;
use crate::text::parse_u64;
use crate::text::parsed_u64;
use crate::text::split;
use crate::text::split_on;
use crate::text::texts;
use crate::text::trim;
use crate::text::trimmed;
use crate::types::opt_text;

verus! {

/// The settings of the service.
#[derive(Debug, Clone, PartialEq, Eq)]
pub struct Config {
    /// The endpoint that is queried for proof requests.
    pub graphql_endpoint: String,
    /// The inbox endpoint that receipts are submitted to.
    pub inputbox_endpoint: String,
    /// The contract address that submissions are for.
    pub dapp_address: String,
    /// The private key that receipts are signed with, as hexadecimal text.
    pub verifier_private_key: String,
    /// The program identities that are admitted.
    pub allowed_image_ids: Vec<String>,
    /// The time between two polls, in seconds.
    pub poll_interval_secs: u64,
    /// The gateway through which `ipfs://` locators are fetched.
    pub ipfs_gateway: String,
    /// The largest receipt that is fetched, in bytes.
    pub max_receipt_size: usize,
    /// How long one request may take, in seconds.
    pub request_timeout_secs: u64,
}

pub struct ConfigView {
    pub graphql_endpoint: Seq<char>,
    pub inputbox_endpoint: Seq<char>,
    pub dapp_address: Seq<char>,
    pub verifier_private_key: Seq<char>,
    pub allowed_image_ids: Seq<Seq<char>>,
    pub poll_interval_secs: u64,
    pub ipfs_gateway: Seq<char>,
    pub max_receipt_size: usize,
    pub request_timeout_secs: u64,
}

impl View for Config {
    type V = ConfigView;

    open spec fn view(&self) -> ConfigView {
        ConfigView {
            graphql_endpoint: self.graphql_endpoint@,
            inputbox_endpoint: self.inputbox_endpoint@,
            dapp_address: self.dapp_address@,
            verifier_private_key: self.verifier_private_key@,
            allowed_image_ids: texts(self.allowed_image_ids@),
            poll_interval_secs: self.poll_interval_secs,
            ipfs_gateway: self.ipfs_gateway@,
            max_receipt_size: self.max_receipt_size,
            request_timeout_secs: self.request_timeout_secs,
        }
    }
}

/// What the environment sets, each variable as its text where it is set.
#[derive(Debug, Clone, PartialEq, Eq)]
pub struct EnvOverrides {
    pub graphql_endpoint: Option<String>,
    pub inputbox_endpoint: Option<String>,
    pub dapp_address: Option<String>,
    pub verifier_private_key: Option<String>,
    /// Program identities, separated by commas.
    pub allowed_image_ids: Option<String>,
    /// The poll interval as a decimal numeral.
    pub poll_interval_secs: Option<String>,
    pub ipfs_gateway: Option<String>,
}

pub struct EnvOverridesView {
    pub graphql_endpoint: Option<Seq<char>>,
    pub inputbox_endpoint: Option<Seq<char>>,
    pub dapp_address: Option<Seq<char>>,
    pub verifier_private_key: Option<Seq<char>>,
    pub allowed_image_ids: Option<Seq<char>>,
    pub poll_interval_secs: Option<Seq<char>>,
    pub ipfs_gateway: Option<Seq<char>>,
}

impl View for EnvOverrides {
    type V = EnvOverridesView;

    open spec fn view(&self) -> EnvOverridesView {
        EnvOverridesView {
            graphql_endpoint: opt_text(self.graphql_endpoint),
            inputbox_endpoint: opt_text(self.inputbox_endpoint),
            dapp_address: opt_text(self.dapp_address),
            verifier_private_key: opt_text(self.verifier_private_key),
            allowed_image_ids: opt_text(self.allowed_image_ids),
            poll_interval_secs: opt_text(self.poll_interval_secs),
            ipfs_gateway: opt_text(self.ipfs_gateway),
        }
    }
}

/// The settings that hold where nothing else is said.
pub open spec fn default_config() -> ConfigView {
    ConfigView {
        graphql_endpoint: "http://localhost:8000/graphql"@,
        inputbox_endpoint: "http://localhost:8080/input"@,
        dapp_address: "0x0000000000000000000000000000000000000000"@,
        verifier_private_key: Seq::empty(),
        allowed_image_ids: Seq::empty(),
        poll_interval_secs: 10,
        ipfs_gateway: "https://ipfs.io"@,
        max_receipt_size: 10485760,
        request_timeout_secs: 30,
    }
}

/// The pieces of a list, each without the white space around it, and
/// without those of which nothing is left.
pub open spec fn cleaned(pieces: Seq<Seq<char>>) -> Seq<Seq<char>>
    decreases pieces.len(),
{
    if pieces.len() == 0 {
        Seq::empty()
    } else {
        let before = cleaned(pieces.drop_last());
        let piece = trimmed(pieces.last());
        if piece.len() > 0 {
            before.push(piece)
        } else {
            before
        }
    }
}

/// The identities that a comma-separated list names.
pub open spec fn image_id_list(text: Seq<char>) -> Seq<Seq<char>> {
    cleaned(split_on(text, ','))
}

/// `value` where it is set, else `base`.
pub open spec fn or_base(value: Option<Seq<char>>, base: Seq<char>) -> Seq<char> {
    match value {
        Some(v) => v,
        None => base,
    }
}

/// The settings `base` with what the environment sets put in their place.
/// A poll interval that is no numeral is passed over.
pub open spec fn overridden(base: ConfigView, env: EnvOverridesView) -> ConfigView {
    ConfigView {
        graphql_endpoint: or_base(env.graphql_endpoint, base.graphql_endpoint),
        inputbox_endpoint: or_base(env.inputbox_endpoint, base.inputbox_endpoint),
        dapp_address: or_base(env.dapp_address, base.dapp_address),
        verifier_private_key: or_base(env.verifier_private_key, base.verifier_private_key),
        allowed_image_ids: match env.allowed_image_ids {
            Some(list) => image_id_list(list),
            None => base.allowed_image_ids,
        },
        poll_interval_secs: match env.poll_interval_secs {
            Some(text) => match parsed_u64(text) {
                Some(secs) => secs,
                None => base.poll_interval_secs,
            },
            None => base.poll_interval_secs,
        },
        ipfs_gateway: or_base(env.ipfs_gateway, base.ipfs_gateway),
        max_receipt_size: base.max_receipt_size,
        request_timeout_secs: base.request_timeout_secs,
    }
}

/// What keeps settings from being used, if anything: no private key, or,
/// with a key, no admitted identity.
pub open spec fn config_error(c: ConfigView) -> Option<VerifierErrorView> {
    if c.verifier_private_key.len() == 0 {
        Some(VerifierErrorView::Config("Verifier private key is required"@))
    } else if c.allowed_image_ids.len() == 0 {
        Some(VerifierErrorView::Config("At least one allowed image ID is required"@))
    } else {
        None
    }
}

/// Reads a comma-separated list of identities.
pub fn parse_image_ids(list: &str) -> (ids: Vec<String>)
    ensures
        texts(ids@) == image_id_list(list@),
{
    let pieces = split(list, ',');
    let mut ids: Vec<String> = Vec::new();
    let mut i: usize = 0;
    assert(texts(pieces@).take(0) =~= Seq::<Seq<char>>::empty());
    while i < pieces.len()
        invariant
            i <= pieces.len(),
            texts(ids@) == cleaned(texts(pieces@).take(i as int)),
        decreases pieces.len() - i,
    {
        proof {
            let now = texts(pieces@).take(i + 1);
            assert(now.drop_last() =~= texts(pieces@).take(i as int));
            assert(now.last() == pieces@[i as int]@);
        }
        let piece = trim(pieces[i].as_str());
        if piece.unicode_len() > 0 {
            let ghost before = texts(ids@);
            ids.push(String::from_str(piece));
            assert(texts(ids@) =~= before.push(piece@));
        }
        i += 1;
    }
    assert(texts(pieces@).take(pieces.len() as int) =~= texts(pieces@));
    ids
}

fn or_text(value: &Option<String>, base: String) -> (t: String)
    ensures
        t@ == or_base(opt_text(*value), base@),
{
    match value {
        Some(v) => v.clone(),
        None => base,
    }
}

impl Default for Config {
    fn default() -> (c: Config)
        ensures
            c@ == default_config(),
    {
        let c = Config {
            graphql_endpoint: String::from_str("http://localhost:8000/graphql"),
            inputbox_endpoint: String::from_str("http://localhost:8080/input"),
            dapp_address: String::from_str("0x0000000000000000000000000000000000000000"),
            verifier_private_key: String::new(),
            allowed_image_ids: Vec::new(),
            poll_interval_secs: 10,
            ipfs_gateway: String::from_str("https://ipfs.io"),
            max_receipt_size: 10485760,
            request_timeout_secs: 30,
        };
        assert(texts(c.allowed_image_ids@) =~= Seq::<Seq<char>>::empty());
        c
    }
}

impl Config {
    /// Puts what the environment sets in the place of what `self` holds.
    pub fn apply(self, env: &EnvOverrides) -> (c: Config)
        ensures
            c@ == overridden(self@, env@),
    {
        let allowed_image_ids = match &env.allowed_image_ids {
            Some(list) => parse_image_ids(list.as_str()),
            None => self.allowed_image_ids,
        };
        let poll_interval_secs = match &env.poll_interval_secs {
            Some(text) => match parse_u64(text.as_str()) {
                Some(secs) => secs,
                None => self.poll_interval_secs,
            },
            None => self.poll_interval_secs,
        };
        Config {
            graphql_endpoint: or_text(&env.graphql_endpoint, self.graphql_endpoint),
            inputbox_endpoint: or_text(&env.inputbox_endpoint, self.inputbox_endpoint),
            dapp_address: or_text(&env.dapp_address, self.dapp_address),
            verifier_private_key: or_text(&env.verifier_private_key, self.verifier_private_key),
            allowed_image_ids,
            poll_interval_secs,
            ipfs_gateway: or_text(&env.ipfs_gateway, self.ipfs_gateway),
            max_receipt_size: self.max_receipt_size,
            request_timeout_secs: self.request_timeout_secs,
        }
    }

    /// The settings read from a file, or the defaults where there is no
    /// file, with what the environment sets put in their place; they are
    /// given out only if they are valid.
    pub fn load(file: Option<Config>, env: &EnvOverrides) -> (res: Result<Config, VerifierError>)
        ensures
            ({
                let base = match file {
                    Some(f) => f@,
                    None => default_config(),
                };
                match res {
                    Ok(c) => config_error(overridden(base, env@)) is None && c@ == overridden(
                        base,
                        env@,
                    ),
                    Err(e) => config_error(overridden(base, env@)) == Some(e@),
                }
            }),
    {
        let base = match file {
            Some(f) => f,
            None => Config::default(),
        };
        let config = base.apply(env);
        match config.validate() {
            Ok(()) => Ok(config),
            Err(e) => Err(e),
        }
    }

    /// The defaults with what the environment sets put in their place,
    /// given out only if they are valid.
    pub fn from_env(env: &EnvOverrides) -> (res: Result<Config, VerifierError>)
        ensures
            match res {
                Ok(c) => config_error(overridden(default_config(), env@)) is None && c@
                    == overridden(default_config(), env@),
                Err(e) => config_error(overridden(default_config(), env@)) == Some(e@),
            },
    {
        Config::load(None, env)
    }

    /// Checks that the settings name a private key and at least one
    /// admitted identity.
    pub fn validate(&self) -> (res: Result<(), VerifierError>)
        ensures
            match res {
                Ok(()) => config_error(self@) is None,
                Err(e) => config_error(self@) == Some(e@),
            },
    {
        if self.verifier_private_key.as_str().unicode_len() == 0 {
            Err(VerifierError::Config(String::from_str("Verifier private key is required")))
        } else if self.allowed_image_ids.len() == 0 {
            Err(
                VerifierError::Config(
                    String::from_str("At least one allowed image ID is required"),
                ),
            )
        } else {
            Ok(())
        }
    }
}

} // verus!

//! Generation options: what the arguments of a binding declaration say, and
//! when they are refused.

use vstd::prelude::*;

verus! {

/// Whether the generated calls block the thread or suspend the task.
#[derive(Clone, Copy, Debug, PartialEq, Eq, Structural)]
pub enum CallingConvention {
    /// Every call occupies the calling thread until it is answered.
    Sync,
    /// Every call suspends the calling task until it is answered.
    Async,
}

/// One argument of a binding declaration.
#[derive(Clone, Debug, PartialEq, Eq)]
pub enum Argument {
    /// `name = "value"`: a name and a string literal. The name is `None`
    /// where what stands before the `=` is not a plain identifier.
    Text { name: Option<String>, value: String },
    /// Any other form: a bare name, a list, or a value that is no string
    /// literal.
    Other,
}

/// An argument as a mathematical value.
pub enum ArgumentModel {
    Text { name: Option<Seq<char>>, value: Seq<char> },
    Other,
}

impl View for Argument {
    type V = ArgumentModel;

    open spec fn view(&self) -> ArgumentModel {
        match self {
            Argument::Text { name, value } => ArgumentModel::Text {
                name: name.deep_view(),
                value: value@,
            },
            Argument::Other => ArgumentModel::Other,
        }
    }
}

impl DeepView for Argument {
    type V = ArgumentModel;

    open spec fn deep_view(&self) -> ArgumentModel {
        self@
    }
}

/// The options of one binding, resolved and valid. The credentials are a
/// pair: one without the other cannot be written down.
#[derive(Clone, Debug, PartialEq, Eq)]
pub struct GenerationOptions {
    /// The endpoint identifier: a short name or a full address.
    pub endpoint: String,
    pub calling_convention: CallingConvention,
    pub credential_token: Option<String>,
    /// User name and password.
    pub basic_auth: Option<(String, String)>,
}

/// Generation options as a mathematical value.
pub struct OptionsModel {
    pub endpoint: Seq<char>,
    pub calling_convention: CallingConvention,
    pub credential_token: Option<Seq<char>>,
    pub basic_auth: Option<(Seq<char>, Seq<char>)>,
}

impl View for GenerationOptions {
    type V = OptionsModel;

    open spec fn view(&self) -> OptionsModel {
        OptionsModel {
            endpoint: self.endpoint@,
            calling_convention: self.calling_convention,
            credential_token: self.credential_token.deep_view(),
            basic_auth: self.basic_auth.deep_view(),
        }
    }
}

/// Why a configuration is refused.
#[derive(Clone, Copy, Debug, PartialEq, Eq, Structural)]
pub enum ConfigError {
    /// No endpoint is named.
    MissingEndpoint,
    /// Of user name and password exactly one is given.
    PartialCredentials,
    /// No calling convention is named.
    MissingCallingConvention,
}

/// The text with which a refusal is reported.
pub open spec fn message_of(e: ConfigError) -> Seq<char> {
    match e {
        ConfigError::MissingEndpoint => "url is required"@,
        ConfigError::PartialCredentials => "Both login and password must be present!"@,
        ConfigError::MissingCallingConvention => "option is required"@,
    }
}

impl ConfigError {
    /// The text with which the refusal is reported.
    pub fn message(&self) -> (text: String)
        ensures
            text@ == message_of(*self),
    {
        match self {
            ConfigError::MissingEndpoint => String::from_str("url is required"),
            ConfigError::PartialCredentials => String::from_str(
                "Both login and password must be present!",
            ),
            ConfigError::MissingCallingConvention => String::from_str("option is required"),
        }
    }
}

/// The value that the arguments give to a key: that of the last `Text`
/// argument of that name, if there is one.
pub open spec fn setting(args: Seq<ArgumentModel>, key: Seq<char>) -> Option<Seq<char>>
    decreases args.len(),
{
    if args.len() == 0 {
        None
    } else {
        match args.last() {
            ArgumentModel::Text { name: Some(n), value } if n == key => Some(value),
            _ => setting(args.drop_last(), key),
        }
    }
}

/// The calling convention that a text names: `sync` is the blocking one,
/// every other text the suspending one.
pub open spec fn convention_named(text: Seq<char>) -> CallingConvention {
    if text == "sync"@ {
        CallingConvention::Sync
    } else {
        CallingConvention::Async
    }
}

/// User name and password as a pair, or the refusal where exactly one of
/// them is given.
pub open spec fn paired(username: Option<Seq<char>>, password: Option<Seq<char>>) -> Result<
    Option<(Seq<char>, Seq<char>)>,
    ConfigError,
> {
    match (username, password) {
        (Some(u), Some(p)) => Ok(Some((u, p))),
        (None, None) => Ok(None),
        _ => Err(ConfigError::PartialCredentials),
    }
}

/// What a list of arguments resolves to. The endpoint is asked for first,
/// then the credentials are paired, then the calling convention is asked
/// for.
pub open spec fn resolved(args: Seq<ArgumentModel>) -> Result<OptionsModel, ConfigError> {
    let endpoint = setting(args, "url"@);
    let convention = setting(args, "option"@);
    let auth = paired(setting(args, "auth_username"@), setting(args, "auth_password"@));
    if endpoint is None {
        Err(ConfigError::MissingEndpoint)
    } else if auth is Err {
        Err(ConfigError::PartialCredentials)
    } else if convention is None {
        Err(ConfigError::MissingCallingConvention)
    } else {
        Ok(
            OptionsModel {
                endpoint: endpoint->0,
                calling_convention: convention_named(convention->0),
                credential_token: setting(args, "hf_token"@),
                basic_auth: auth->Ok_0,
            },
        )
    }
}

/// Whether a text is the given literal.
fn is_text(s: &String, literal: &str) -> (r: bool)
    ensures
        r == (s@ == literal@),
{
    let t = String::from_str(literal);
    *s == t
}

/// The calling convention that a text names.
pub fn parse_convention(text: &String) -> (c: CallingConvention)
    ensures
        c == convention_named(text@),
{
    if is_text(text, "sync") {
        CallingConvention::Sync
    } else {
        CallingConvention::Async
    }
}

/// Pairs user name and password, and refuses one without the other.
pub fn pair_credentials(username: Option<String>, password: Option<String>) -> (r: Result<
    Option<(String, String)>,
    ConfigError,
>)
    ensures
        match paired(username.deep_view(), password.deep_view()) {
            Ok(pair) => r matches Ok(p) && p.deep_view() == pair,
            Err(e) => r == Err::<Option<(String, String)>, ConfigError>(e),
        },
{
    match (username, password) {
        (Some(u), Some(p)) => Ok(Some((u, p))),
        (None, None) => Ok(None),
        _ => Err(ConfigError::PartialCredentials),
    }
}

/// The value of a key after one more argument: the argument's value where
/// it is a `Text` argument of that name, else what was set before.
fn updated(current: Option<String>, arg: &Argument, key: &str) -> (r: Option<String>)
    ensures
        r.deep_view() == match arg@ {
            ArgumentModel::Text { name: Some(n), value } if n == key@ => Some(value),
            _ => current.deep_view(),
        },
{
    match arg {
        Argument::Text { name: Some(n), value } => {
            if is_text(n, key) {
                Some(value.clone())
            } else {
                current
            }
        },
        _ => current,
    }
}

/// Resolves the arguments of a binding declaration into generation
/// options, before anything is fetched. A key that is given twice has its
/// last value; arguments of other names and other forms are passed over.
/// The declaration is refused where no endpoint is named, where exactly
/// one of user name and password is given, and where no calling convention
/// is named, in this order.
pub fn resolve_options(args: &Vec<Argument>) -> (r: Result<GenerationOptions, ConfigError>)
    ensures
        match resolved(args.deep_view()) {
            Ok(options) => r matches Ok(o) && o@ == options,
            Err(e) => r == Err::<GenerationOptions, ConfigError>(e),
        },
{
    let mut endpoint: Option<String> = None;
    let mut convention: Option<String> = None;
    let mut token: Option<String> = None;
    let mut username: Option<String> = None;
    let mut password: Option<String> = None;
    let ghost all = args.deep_view();
    for i in 0..args.len()
        invariant
            all == args.deep_view(),
            endpoint.deep_view() == setting(all.take(i as int), "url"@),
            convention.deep_view() == setting(all.take(i as int), "option"@),
            token.deep_view() == setting(all.take(i as int), "hf_token"@),
            username.deep_view() == setting(all.take(i as int), "auth_username"@),
            password.deep_view() == setting(all.take(i as int), "auth_password"@),
    {
        proof {
            let next = all.take(i + 1);
            assert(next.drop_last() == all.take(i as int));
        }
        let arg = &args[i];
        endpoint = updated(endpoint, arg, "url");
        convention = updated(convention, arg, "option");
        token = updated(token, arg, "hf_token");
        username = updated(username, arg, "auth_username");
        password = updated(password, arg, "auth_password");
    }
    assert(all.take(args.len() as int) == all);
    let endpoint = match endpoint {
        None => { return Err(ConfigError::MissingEndpoint); },
        Some(e) => e,
    };
    let basic_auth = match pair_credentials(username, password) {
        Err(e) => { return Err(e); },
        Ok(pair) => pair,
    };
    let calling_convention = match convention {
        None => { return Err(ConfigError::MissingCallingConvention); },
        Some(text) => parse_convention(&text),
    };
    Ok(GenerationOptions { endpoint, calling_convention, credential_token: token, basic_auth })
}

/// Arguments that give exactly one of user name and password resolve to no
/// options: they are refused, and for that reason wherever an endpoint is
/// named.
pub proof fn law_partial_credentials_are_refused(args: Seq<ArgumentModel>)
    requires
        setting(args, "auth_username"@) is Some != setting(args, "auth_password"@) is Some,
    ensures
        resolved(args) is Err,
        setting(args, "url"@) is Some ==> resolved(args) == Err::<OptionsModel, ConfigError>(
            ConfigError::PartialCredentials,
        ),
{
}

} // verus!

//! The service's configuration and how it is read from the variables of the
//! process environment. Reading the environment itself is the caller's
//! part: the variables come in as a list of names and values.

use crate::text::chars_of;
use crate::text::join2;
use crate::text::optional_text;
use crate::text::str_eq;
use vstd::prelude::*;
use vstd::string::*;

verus! {

/// Why a text is not a number.
#[derive(Debug, Clone, Copy, PartialEq, Eq, Structural)]
pub enum NumberError {
    /// The text is empty.
    Empty,
    /// The text holds something other than digits after an optional `+`, or
    /// no digit at all.
    InvalidDigit,
    /// The number is larger than its field holds.
    TooLarge,
}

/// Whether every character is one of `0`..`9`.
pub open spec fn all_digits(s: Seq<char>) -> bool {
    forall|i: int| 0 <= i < s.len() ==> '0' <= #[trigger] s[i] && s[i] <= '9'
}

/// The number that a sequence of digits writes in decimal; leading zeros
/// count for nothing.
pub open spec fn digits_value(s: Seq<char>) -> nat
    decreases s.len(),
{
    if s.len() == 0 {
        0
    } else {
        digits_value(s.drop_last()) * 10 + ((s.last() as u32) - ('0' as u32)) as nat
    }
}

/// The digits of a number text: the text without its optional leading `+`.
pub open spec fn number_body(s: Seq<char>) -> Seq<char> {
    if s.len() > 0 && s[0] == '+' {
        s.skip(1)
    } else {
        s
    }
}

/// The number up to `max` that a text writes, or why it writes none. A
/// number is an optional `+` and at least one digit, with nothing before,
/// between or after.
pub open spec fn parsed_number(s: Seq<char>, max: nat) -> Result<nat, NumberError> {
    if s.len() == 0 {
        Err(NumberError::Empty)
    } else if number_body(s).len() == 0 || !all_digits(number_body(s)) {
        Err(NumberError::InvalidDigit)
    } else if digits_value(number_body(s)) > max {
        Err(NumberError::TooLarge)
    } else {
        Ok(digits_value(number_body(s)))
    }
}

/// The words for a number error.
pub open spec fn number_error_text(e: NumberError) -> Seq<char> {
    match e {
        NumberError::Empty => "cannot parse integer from empty string"@,
        NumberError::InvalidDigit => "invalid digit found in string"@,
        NumberError::TooLarge => "number too large to fit in target type"@,
    }
}

/// The truth value that a text writes: `true` or `false`, nothing else.
pub open spec fn parsed_bool(s: Seq<char>) -> Option<bool> {
    if s == "true"@ {
        Some(true)
    } else if s == "false"@ {
        Some(false)
    } else {
        None
    }
}

/// The environment as names and values.
pub open spec fn env_view(env: Seq<(String, String)>) -> Seq<(Seq<char>, Seq<char>)> {
    Seq::new(env.len(), |i: int| (env[i].0@, env[i].1@))
}

/// The value of the variable `name`: that of the first entry of that name.
pub open spec fn env_value(env: Seq<(Seq<char>, Seq<char>)>, name: Seq<char>) -> Option<
    Seq<char>,
>
    decreases env.len(),
{
    if env.len() == 0 {
        None
    } else if env[0].0 == name {
        Some(env[0].1)
    } else {
        env_value(env.drop_first(), name)
    }
}

/// The value of the variable `name`, or `default` where it is not set.
pub open spec fn env_or(
    env: Seq<(Seq<char>, Seq<char>)>,
    name: Seq<char>,
    default: Seq<char>,
) -> Seq<char> {
    match env_value(env, name) {
        Some(v) => v,
        None => default,
    }
}

/// Reads a number up to `max`.
pub fn parse_number(s: &str, max: u64) -> (r: Result<u64, NumberError>)
    ensures
        match r {
            Ok(n) => parsed_number(s@, max as nat) == Ok::<nat, NumberError>(n as nat),
            Err(e) => parsed_number(s@, max as nat) == Err::<nat, NumberError>(e),
        },
{
    let chars = chars_of(s);
    if chars.len() == 0 {
        return Err(NumberError::Empty);
    }
    let start: usize = if chars[0] == '+' {
        1
    } else {
        0
    };
    let ghost body = number_body(s@);
    assert(body =~= chars@.skip(start as int));
    if start == chars.len() {
        return Err(NumberError::InvalidDigit);
    }
    let mut value: u64 = 0;
    let mut too_large = false;
    let mut i: usize = start;
    while i < chars.len()
        invariant
            start <= i <= chars@.len(),
            s@.len() > 0,
            body == number_body(s@),
            body == chars@.skip(start as int),
            all_digits(body.take(i - start)),
            !too_large ==> value == digits_value(body.take(i - start)) && value <= max,
            too_large ==> digits_value(body.take(i - start)) > max,
        decreases chars@.len() - i,
    {
        let c = chars[i];
        let ghost before = body.take(i - start);
        let ghost after = body.take(i - start + 1);
        proof {
            assert(body[i - start] == c);
            assert(after.drop_last() =~= before);
            assert(after.last() == c);
        }
        if !(c >= '0' && c <= '9') {
            assert(!all_digits(body));
            return Err(NumberError::InvalidDigit);
        }
        proof {
            assert forall|j: int| 0 <= j < after.len() implies '0' <= #[trigger] after[j]
                && after[j] <= '9' by {
                if j < before.len() {
                    assert(after[j] == before[j]);
                }
            }
        }
        let digit: u64 = ((c as u32) - ('0' as u32)) as u64;
        if !too_large {
            if max < digit || value > (max - digit) / 10 {
                too_large = true;
                assert(value * 10 + digit > max) by (nonlinear_arith)
                    requires
                        value > (max - digit) / 10 || max < digit,
                        0 <= digit <= 9,
                ;
            } else {
                assert(value * 10 + digit <= max) by (nonlinear_arith)
                    requires
                        value <= (max - digit) / 10,
                        max >= digit,
                ;
                value = value * 10 + digit;
            }
        } else {
            assert(digits_value(after) >= digits_value(before)) by (nonlinear_arith)
                requires
                    digits_value(after) == digits_value(before) * 10 + digit,
                    digit >= 0,
            ;
        }
        i += 1;
    }
    assert(body.take(i - start) =~= body);
    if too_large {
        Err(NumberError::TooLarge)
    } else {
        Ok(value)
    }
}

/// Reads a truth value.
pub fn parse_bool(s: &str) -> (r: Option<bool>)
    ensures
        r == parsed_bool(s@),
{
    if str_eq(s, "true") {
        Some(true)
    } else if str_eq(s, "false") {
        Some(false)
    } else {
        None
    }
}

/// The value of the variable `name` in a list of variables.
pub fn lookup<'a>(env: &'a Vec<(String, String)>, name: &str) -> (value: Option<&'a String>)
    ensures
        match value {
            Some(v) => env_value(env_view(env@), name@) == Some(v@),
            None => env_value(env_view(env@), name@) is None,
        },
{
    let ghost all = env_view(env@);
    assert(all.skip(0) =~= all);
    let mut i: usize = 0;
    while i < env.len()
        invariant
            i <= env@.len(),
            all == env_view(env@),
            env_value(all, name@) == env_value(all.skip(i as int), name@),
        decreases env@.len() - i,
    {
        let ghost rest = all.skip(i as int);
        proof {
            assert(rest[0] == all[i as int]);
            assert(rest.drop_first() =~= all.skip(i + 1));
        }
        if str_eq(env[i].0.as_str(), name) {
            return Some(&env[i].1);
        }
        i += 1;
    }
    assert(all.skip(i as int).len() == 0);
    None
}

fn text_or(env: &Vec<(String, String)>, name: &str, default: &str) -> (value: String)
    ensures
        value@ == env_or(env_view(env@), name@, default@),
{
    match lookup(env, name) {
        Some(v) => v.clone(),
        None => String::from_str(default),
    }
}

fn optional(env: &Vec<(String, String)>, name: &str) -> (value: Option<String>)
    ensures
        match value {
            Some(v) => env_value(env_view(env@), name@) == Some(v@),
            None => env_value(env_view(env@), name@) is None,
        },
{
    match lookup(env, name) {
        Some(v) => Some(v.clone()),
        None => None,
    }
}

/// The configuration of the service.
#[derive(Debug, Clone)]
pub struct Config {
    pub qdrant_url: String,
    pub qdrant_api_key: Option<String>,
    /// The logical collection of memories.
    pub collection_name: String,
    /// The collection of document chunks.
    pub documents_collection_name: String,
    /// The one dimension of every vector.
    pub vector_dimension: u64,
    pub port: u16,
    pub service_api_key: Option<String>,
    pub tls_enabled: bool,
    pub tls_cert_path: Option<String>,
    pub tls_key_path: Option<String>,
    pub discord_webhook_url: Option<String>,
    /// The embedding backend, as told to callers.
    pub embedding_backend: String,
    /// The embedding model, as told to callers.
    pub embedding_model: Option<String>,
    /// The device used for embeddings, as told to callers.
    pub embedding_device: String,
    pub ollama_base_url: Option<String>,
    pub embedding_onnx_model_path: Option<String>,
    pub embedding_tokenizer_path: Option<String>,
    /// The longest input, in tokens, that is embedded.
    pub embedding_max_length: u32,
}

/// The mathematical form of a configuration.
pub ghost struct ConfigView {
    pub qdrant_url: Seq<char>,
    pub qdrant_api_key: Option<Seq<char>>,
    pub collection_name: Seq<char>,
    pub documents_collection_name: Seq<char>,
    pub vector_dimension: u64,
    pub port: u16,
    pub service_api_key: Option<Seq<char>>,
    pub tls_enabled: bool,
    pub tls_cert_path: Option<Seq<char>>,
    pub tls_key_path: Option<Seq<char>>,
    pub discord_webhook_url: Option<Seq<char>>,
    pub embedding_backend: Seq<char>,
    pub embedding_model: Option<Seq<char>>,
    pub embedding_device: Seq<char>,
    pub ollama_base_url: Option<Seq<char>>,
    pub embedding_onnx_model_path: Option<Seq<char>>,
    pub embedding_tokenizer_path: Option<Seq<char>>,
    pub embedding_max_length: u32,
}

impl View for Config {
    type V = ConfigView;

    open spec fn view(&self) -> ConfigView {
        ConfigView {
            qdrant_url: self.qdrant_url@,
            qdrant_api_key: optional_text(self.qdrant_api_key),
            collection_name: self.collection_name@,
            documents_collection_name: self.documents_collection_name@,
            vector_dimension: self.vector_dimension,
            port: self.port,
            service_api_key: optional_text(self.service_api_key),
            tls_enabled: self.tls_enabled,
            tls_cert_path: optional_text(self.tls_cert_path),
            tls_key_path: optional_text(self.tls_key_path),
            discord_webhook_url: optional_text(self.discord_webhook_url),
            embedding_backend: self.embedding_backend@,
            embedding_model: optional_text(self.embedding_model),
            embedding_device: self.embedding_device@,
            ollama_base_url: optional_text(self.ollama_base_url),
            embedding_onnx_model_path: optional_text(self.embedding_onnx_model_path),
            embedding_tokenizer_path: optional_text(self.embedding_tokenizer_path),
            embedding_max_length: self.embedding_max_length,
        }
    }
}

/// The vector dimension that the environment asks for: 1024 where it asks
/// for none.
pub open spec fn dimension_of(env: Seq<(Seq<char>, Seq<char>)>) -> Result<nat, NumberError> {
    parsed_number(env_or(env, "QDRANT_VECTOR_DIMENSION"@, "1024"@), u64::MAX as nat)
}

/// The port that the environment asks for: 8090 where it asks for none.
pub open spec fn port_of(env: Seq<(Seq<char>, Seq<char>)>) -> Result<nat, NumberError> {
    parsed_number(env_or(env, "PORT"@, "8090"@), u16::MAX as nat)
}

/// The configuration that the environment asks for, or why it asks for
/// none. A dimension or a port that is no number is an error; a TLS switch
/// that is no truth value reads as off, and a token limit that is no number
/// as 512.
pub open spec fn config_of(env: Seq<(Seq<char>, Seq<char>)>) -> Result<ConfigView, Seq<char>> {
    match dimension_of(env) {
        Err(e) => Err("Invalid QDRANT_VECTOR_DIMENSION: "@ + number_error_text(e)),
        Ok(dimension) => match port_of(env) {
            Err(e) => Err("Invalid PORT: "@ + number_error_text(e)),
            Ok(port) => Ok(
                ConfigView {
                    qdrant_url: env_or(env, "QDRANT_URL"@, "http://localhost:6334"@),
                    qdrant_api_key: env_value(env, "QDRANT_API_KEY"@),
                    collection_name: env_or(env, "QDRANT_COLLECTION_NAME"@, "user_memories"@),
                    documents_collection_name: env_or(
                        env,
                        "QDRANT_DOCUMENTS_COLLECTION_NAME"@,
                        "user_documents"@,
                    ),
                    vector_dimension: dimension as u64,
                    port: port as u16,
                    service_api_key: env_value(env, "SERVICE_API_KEY"@),
                    tls_enabled: match parsed_bool(env_or(env, "TLS_ENABLED"@, "false"@)) {
                        Some(b) => b,
                        None => false,
                    },
                    tls_cert_path: env_value(env, "TLS_CERT_PATH"@),
                    tls_key_path: env_value(env, "TLS_KEY_PATH"@),
                    discord_webhook_url: env_value(env, "DISCORD_WEBHOOK_URL"@),
                    embedding_backend: env_or(env, "EMBEDDING_BACKEND"@, "none"@),
                    embedding_model: env_value(env, "EMBEDDING_MODEL"@),
                    embedding_device: env_or(env, "EMBEDDING_DEVICE"@, "auto"@),
                    ollama_base_url: env_value(env, "OLLAMA_BASE_URL"@),
                    embedding_onnx_model_path: env_value(env, "EMBEDDING_ONNX_MODEL_PATH"@),
                    embedding_tokenizer_path: env_value(env, "EMBEDDING_TOKENIZER_PATH"@),
                    embedding_max_length: match parsed_number(
                        env_or(env, "EMBEDDING_MAX_LENGTH"@, "512"@),
                        u32::MAX as nat,
                    ) {
                        Ok(n) => n as u32,
                        Err(_) => 512,
                    },
                },
            ),
        },
    }
}

fn number_error_words(e: NumberError) -> (text: &'static str)
    ensures
        text@ == number_error_text(e),
{
    match e {
        NumberError::Empty => "cannot parse integer from empty string",
        NumberError::InvalidDigit => "invalid digit found in string",
        NumberError::TooLarge => "number too large to fit in target type",
    }
}

impl Config {
    /// The configuration for a list of environment variables. Variables
    /// that are not set take their defaults; where a name is listed twice,
    /// the first entry counts.
    pub fn from_vars(env: &Vec<(String, String)>) -> (r: Result<Config, String>)
        ensures
            match r {
                Ok(config) => config_of(env_view(env@)) == Ok::<ConfigView, Seq<char>>(config@),
                Err(message) => config_of(env_view(env@)) == Err::<ConfigView, Seq<char>>(
                    message@,
                ),
            },
    {
        let dimension_text = text_or(env, "QDRANT_VECTOR_DIMENSION", "1024");
        let vector_dimension = match parse_number(dimension_text.as_str(), u64::MAX) {
            Ok(n) => n,
            Err(e) => {
                return Err(join2("Invalid QDRANT_VECTOR_DIMENSION: ", number_error_words(e)));
            },
        };
        let port_text = text_or(env, "PORT", "8090");
        let port: u16 = match parse_number(port_text.as_str(), 65535) {
            Ok(n) => n as u16,
            Err(e) => {
                return Err(join2("Invalid PORT: ", number_error_words(e)));
            },
        };
        let tls_text = text_or(env, "TLS_ENABLED", "false");
        let tls_enabled = match parse_bool(tls_text.as_str()) {
            Some(b) => b,
            None => false,
        };
        let length_text = text_or(env, "EMBEDDING_MAX_LENGTH", "512");
        let embedding_max_length: u32 = match parse_number(length_text.as_str(), 4294967295) {
            Ok(n) => n as u32,
            Err(_) => 512,
        };
        Ok(
            Config {
                qdrant_url: text_or(env, "QDRANT_URL", "http://localhost:6334"),
                qdrant_api_key: optional(env, "QDRANT_API_KEY"),
                collection_name: text_or(env, "QDRANT_COLLECTION_NAME", "user_memories"),
                documents_collection_name: text_or(
                    env,
                    "QDRANT_DOCUMENTS_COLLECTION_NAME",
                    "user_documents",
                ),
                vector_dimension,
                port,
                service_api_key: optional(env, "SERVICE_API_KEY"),
                tls_enabled,
                tls_cert_path: optional(env, "TLS_CERT_PATH"),
                tls_key_path: optional(env, "TLS_KEY_PATH"),
                discord_webhook_url: optional(env, "DISCORD_WEBHOOK_URL"),
                embedding_backend: text_or(env, "EMBEDDING_BACKEND", "none"),
                embedding_model: optional(env, "EMBEDDING_MODEL"),
                embedding_device: text_or(env, "EMBEDDING_DEVICE", "auto"),
                ollama_base_url: optional(env, "OLLAMA_BASE_URL"),
                embedding_onnx_model_path: optional(env, "EMBEDDING_ONNX_MODEL_PATH"),
                embedding_tokenizer_path: optional(env, "EMBEDDING_TOKENIZER_PATH"),
                embedding_max_length,
            },
        )
    }

    /// A configuration for trials: a local engine, vectors of 128 numbers, no
    /// keys, no TLS, no alerts.
    pub fn test_config() -> (config: Config)
        ensures
            config.qdrant_url@ == "http://localhost:6334"@,
            config.qdrant_api_key is None,
            config.collection_name@ == "test_collection"@,
            config.documents_collection_name@ == "test_documents"@,
            config.vector_dimension == 128,
            config.port == 8090,
            config.service_api_key is None,
            !config.tls_enabled,
            config.tls_cert_path is None,
            config.tls_key_path is None,
            config.discord_webhook_url is None,
            config.embedding_backend@ == "none"@,
            config.embedding_model is None,
            config.embedding_device@ == "auto"@,
            config.ollama_base_url is None,
            config.embedding_onnx_model_path is None,
            config.embedding_tokenizer_path is None,
            config.embedding_max_length == 512,
    {
        Config {
            qdrant_url: String::from_str("http://localhost:6334"),
            qdrant_api_key: None,
            collection_name: String::from_str("test_collection"),
            documents_collection_name: String::from_str("test_documents"),
            vector_dimension: 128,
            port: 8090,
            service_api_key: None,
            tls_enabled: false,
            tls_cert_path: None,
            tls_key_path: None,
            discord_webhook_url: None,
            embedding_backend: String::from_str("none"),
            embedding_model: None,
            embedding_device: String::from_str("auto"),
            ollama_base_url: None,
            embedding_onnx_model_path: None,
            embedding_tokenizer_path: None,
            embedding_max_length: 512,
        }
    }
}

} // verus!

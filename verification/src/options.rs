//! Per-subscription options: retain-handling policy, no-local and
//! retain-as-published flags, and their raw configuration forms.

use vstd::prelude::*;

use crate::ConfigError;

verus! {

/// Policy controlling whether previously retained messages are redelivered
/// on (re)subscription.
#[derive(Debug, Clone, Copy, PartialEq, Eq, Structural)]
pub enum RetainHandling {
    SendRetainedOnSubscribe,
    SendRetainedOnNew,
    DontSendRetained,
}

impl RetainHandling {
    /// Decodes a wire/configuration code.  Exactly the codes 0, 1 and 2 are
    /// valid; anything else is a fatal configuration error.
    pub fn from_code(code: i32) -> (r: Result<RetainHandling, ConfigError>)
        ensures
            r == RetainHandling::spec_from_code(code),
    {
        match code {
            0 => Ok(RetainHandling::SendRetainedOnSubscribe),
            1 => Ok(RetainHandling::SendRetainedOnNew),
            2 => Ok(RetainHandling::DontSendRetained),
            _ => Err(ConfigError::InvalidRetainHandling),
        }
    }

    pub open spec fn spec_from_code(code: i32) -> Result<RetainHandling, ConfigError> {
        if code == 0 {
            Ok(RetainHandling::SendRetainedOnSubscribe)
        } else if code == 1 {
            Ok(RetainHandling::SendRetainedOnNew)
        } else if code == 2 {
            Ok(RetainHandling::DontSendRetained)
        } else {
            Err(ConfigError::InvalidRetainHandling)
        }
    }

    /// The configuration code of this policy; the inverse of `from_code`.
    pub fn code(&self) -> (r: i32)
        ensures
            RetainHandling::spec_from_code(r) == Ok::<RetainHandling, ConfigError>(*self),
    {
        match self {
            RetainHandling::SendRetainedOnSubscribe => 0,
            RetainHandling::SendRetainedOnNew => 1,
            RetainHandling::DontSendRetained => 2,
        }
    }
}

/// The options attached to one topic subscription, in their validated form.
#[derive(Debug, Clone, Copy, PartialEq, Eq, Structural)]
pub struct SubscribeOptions {
    pub no_local: bool,
    pub retain_as_published: bool,
    pub retain_handling: RetainHandling,
}

impl Default for SubscribeOptions {
    /// The broker protocol's defaults: both flags off, retained messages
    /// sent on every subscribe.
    fn default() -> (r: Self)
        ensures
            r == SubscribeOptions::spec_default(),
    {
        SubscribeOptions {
            no_local: false,
            retain_as_published: false,
            retain_handling: RetainHandling::SendRetainedOnSubscribe,
        }
    }
}

impl SubscribeOptions {
    pub open spec fn spec_default() -> SubscribeOptions {
        SubscribeOptions {
            no_local: false,
            retain_as_published: false,
            retain_handling: RetainHandling::SendRetainedOnSubscribe,
        }
    }
}

/// Subscription options as a configuration document supplies them, with the
/// retain-handling policy already decoded.
#[derive(Debug, Clone, Copy, PartialEq, Eq, Structural)]
pub struct Options {
    pub no_local: bool,
    pub retain_as_publish: bool,
    pub retain_handling: RetainHandling,
}

impl From<Options> for SubscribeOptions {
    fn from(value: Options) -> (r: SubscribeOptions) {
        SubscribeOptions {
            no_local: value.no_local,
            retain_as_published: value.retain_as_publish,
            retain_handling: value.retain_handling,
        }
    }
}

impl vstd::std_specs::convert::FromSpecImpl<Options> for SubscribeOptions {
    open spec fn obeys_from_spec() -> bool {
        true
    }

    open spec fn from_spec(value: Options) -> SubscribeOptions {
        SubscribeOptions {
            no_local: value.no_local,
            retain_as_published: value.retain_as_publish,
            retain_handling: value.retain_handling,
        }
    }
}

/// Subscription options as a raw configuration document supplies them, with
/// the retain-handling policy still an unchecked code.
#[derive(Debug, Clone, Copy, PartialEq, Eq, Structural)]
pub struct TopicOptions {
    pub no_local: bool,
    pub retain_as_publish: bool,
    pub retain_handling: i32,
}

impl TopicOptions {
    /// Validates the raw options.  Succeeds exactly when the retain-handling
    /// code is one of 0, 1 and 2.
    pub fn to_subscribe_options(&self) -> (r: Result<SubscribeOptions, ConfigError>)
        ensures
            r == self.spec_to_subscribe_options(),
    {
        match RetainHandling::from_code(self.retain_handling) {
            Ok(h) => Ok(SubscribeOptions {
                no_local: self.no_local,
                retain_as_published: self.retain_as_publish,
                retain_handling: h,
            }),
            Err(e) => Err(e),
        }
    }

    pub open spec fn spec_to_subscribe_options(&self) -> Result<SubscribeOptions, ConfigError> {
        match RetainHandling::spec_from_code(self.retain_handling) {
            Ok(h) => Ok(SubscribeOptions {
                no_local: self.no_local,
                retain_as_published: self.retain_as_publish,
                retain_handling: h,
            }),
            Err(e) => Err(e),
        }
    }
}

} // verus!

//! Stream profiles: how a stream weighs latency against resilience.

use vstd::prelude::*;
use vstd::string::StringExecFns;

verus! {

/// What a stream is asked to favour, each weight in percent.
#[derive(Debug, Clone, Copy, PartialEq, Eq, Structural)]
pub struct StreamProfile {
    pub latency_weight: u8,
    pub resilience_weight: u8,
}

/// Why a profile cannot be compiled.
#[derive(Debug, Clone, Copy, PartialEq, Eq, Structural)]
pub enum ProfileError {
    /// A weight is above 100.
    WeightOutOfRange,
    /// Both weights are 0.
    NoPreference,
}

impl ProfileError {
    /// The reason as one line of text.
    pub open spec fn message_spec(self) -> Seq<char> {
        match self {
            ProfileError::WeightOutOfRange => "profile weight above 100"@,
            ProfileError::NoPreference => "profile states no preference"@,
        }
    }

    /// The reason as one line of text.
    pub fn message(&self) -> (text: String)
        ensures
            text@ == self.message_spec(),
    {
        match self {
            ProfileError::WeightOutOfRange => String::from_str("profile weight above 100"),
            ProfileError::NoPreference => String::from_str("profile states no preference"),
        }
    }
}

/// The two weights of a compiled profile.
#[derive(Debug, Clone, Copy, PartialEq, Eq, Structural)]
pub struct StreamIntent {
    pub latency_weight: u8,
    pub resilience_weight: u8,
}

impl StreamIntent {
    /// Latency counts at least as much as resilience.
    pub open spec fn favors_latency_spec(self) -> bool {
        self.latency_weight >= self.resilience_weight
    }

    /// Latency counts at least as much as resilience.
    pub fn favors_latency(&self) -> (favored: bool)
        ensures
            favored == self.favors_latency_spec(),
    {
        self.latency_weight >= self.resilience_weight
    }
}

/// A profile that was checked and is ready for a stream.
#[derive(Debug)]
pub struct CompiledStreamProfile {
    intent: StreamIntent,
    config_id: String,
}

/// Whether a profile compiles: both weights are percentages, and not both
/// are 0.
pub open spec fn compile_refusal(profile: StreamProfile) -> Option<ProfileError> {
    if profile.latency_weight > 100 || profile.resilience_weight > 100 {
        Some(ProfileError::WeightOutOfRange)
    } else if profile.latency_weight == 0 && profile.resilience_weight == 0 {
        Some(ProfileError::NoPreference)
    } else {
        None
    }
}

/// The identifier of a compiled profile names what it favours.
pub open spec fn config_id_for(intent: StreamIntent) -> Seq<char> {
    if intent.latency_weight > intent.resilience_weight {
        "latency-favored"@
    } else if intent.latency_weight < intent.resilience_weight {
        "resilience-favored"@
    } else {
        "balanced"@
    }
}

impl StreamProfile {
    /// Equal weight for latency and resilience.
    pub fn auto() -> (profile: Self)
        ensures
            profile == (StreamProfile { latency_weight: 50, resilience_weight: 50 }),
    {
        StreamProfile { latency_weight: 50, resilience_weight: 50 }
    }

    /// Latency first, for live operation.
    pub fn realtime() -> (profile: Self)
        ensures
            profile == (StreamProfile { latency_weight: 80, resilience_weight: 20 }),
    {
        StreamProfile { latency_weight: 80, resilience_weight: 20 }
    }

    /// Resilience first, for fixed installations.
    pub fn install() -> (profile: Self)
        ensures
            profile == (StreamProfile { latency_weight: 20, resilience_weight: 80 }),
    {
        StreamProfile { latency_weight: 20, resilience_weight: 80 }
    }

    /// Checks the profile and fixes its identifier.
    pub fn compile(&self) -> (compiled: Result<CompiledStreamProfile, ProfileError>)
        ensures
            match compiled {
                Ok(c) => compile_refusal(*self) is None && c.intent_spec() == (StreamIntent {
                    latency_weight: self.latency_weight,
                    resilience_weight: self.resilience_weight,
                }) && c.config_id_spec() == config_id_for(c.intent_spec()),
                Err(e) => compile_refusal(*self) == Some(e),
            },
    {
        if self.latency_weight > 100 || self.resilience_weight > 100 {
            return Err(ProfileError::WeightOutOfRange);
        }
        if self.latency_weight == 0 && self.resilience_weight == 0 {
            return Err(ProfileError::NoPreference);
        }
        let config_id = if self.latency_weight > self.resilience_weight {
            String::from_str("latency-favored")
        } else if self.latency_weight < self.resilience_weight {
            String::from_str("resilience-favored")
        } else {
            String::from_str("balanced")
        };
        Ok(
            CompiledStreamProfile {
                intent: StreamIntent {
                    latency_weight: self.latency_weight,
                    resilience_weight: self.resilience_weight,
                },
                config_id,
            },
        )
    }
}

impl CompiledStreamProfile {
    /// The two weights.
    pub closed spec fn intent_spec(&self) -> StreamIntent {
        self.intent
    }

    /// The identifier.
    pub closed spec fn config_id_spec(&self) -> Seq<char> {
        self.config_id@
    }

    pub fn intent(&self) -> (intent: StreamIntent)
        ensures
            intent == self.intent_spec(),
    {
        self.intent
    }

    pub fn latency_weight(&self) -> (weight: u8)
        ensures
            weight == self.intent_spec().latency_weight,
    {
        self.intent.latency_weight
    }

    pub fn resilience_weight(&self) -> (weight: u8)
        ensures
            weight == self.intent_spec().resilience_weight,
    {
        self.intent.resilience_weight
    }

    pub fn config_id(&self) -> (id: &str)
        ensures
            id@ == self.config_id_spec(),
    {
        self.config_id.as_str()
    }
}

impl Clone for CompiledStreamProfile {
    fn clone(&self) -> (copy: Self)
        ensures
            copy.intent_spec() == self.intent_spec(),
            copy.config_id_spec() == self.config_id_spec(),
    {
        CompiledStreamProfile { intent: self.intent, config_id: self.config_id.clone() }
    }
}

} // verus!

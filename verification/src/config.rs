//! The simulation's numeric parameters, validated before any run starts.
//!
//! A probability is a numerator over the fixed denominator [`PROB_UNIT`]:
//! the value `p` stands for the chance `p / PROB_UNIT`, and a uniform draw
//! `d` in `0 .. PROB_UNIT` triggers the event exactly when `d < p`. So
//! `p == 0` never triggers and `p == PROB_UNIT` always triggers.
use vstd::prelude::*;

verus! {

/// Denominator of every probability, and the exclusive upper bound of every
/// uniform draw.
pub const PROB_UNIT: u64 = 1_000_000_000;

/// Why a configuration was rejected before any simulation started.
#[derive(Clone, Copy, Debug, PartialEq, Eq, Structural)]
pub enum ConfigError {
    /// Some probability numerator exceeds `PROB_UNIT`.
    ProbabilityOutOfRange,
    /// `num_people` is zero.
    ZeroPopulation,
    /// `recovery_threshold_days` is zero.
    ZeroRecoveryThreshold,
}

/// The run's parameters: sizes, day count, the four probabilities and the
/// recovery threshold (days infected after which, absent death, an
/// individual recovers).
#[derive(Clone, Copy, Debug, PartialEq, Eq, Structural)]
pub struct Config {
    pub num_simulations: u32,
    pub num_people: u32,
    pub num_days: u32,
    pub infection_prob: u64,
    pub vaccination_prob: u64,
    pub transmission_prob: u64,
    pub death_prob: u64,
    pub recovery_threshold_days: u32,
}

impl Config {
    /// Every probability is in range, the population is non-empty and the
    /// recovery threshold is at least one day.
    pub open spec fn wf(self) -> bool {
        &&& self.infection_prob <= PROB_UNIT
        &&& self.vaccination_prob <= PROB_UNIT
        &&& self.transmission_prob <= PROB_UNIT
        &&& self.death_prob <= PROB_UNIT
        &&& self.num_people >= 1
        &&& self.recovery_threshold_days >= 1
    }

    /// Validates the parameters; a malformed configuration is rejected
    /// before any simulation starts, probabilities checked first, then the
    /// population size, then the recovery threshold.
    pub fn new(
        num_simulations: u32,
        num_people: u32,
        num_days: u32,
        infection_prob: u64,
        vaccination_prob: u64,
        transmission_prob: u64,
        death_prob: u64,
        recovery_threshold_days: u32,
    ) -> (r: Result<Config, ConfigError>)
        ensures
            ({
                let probs_ok = infection_prob <= PROB_UNIT && vaccination_prob <= PROB_UNIT
                    && transmission_prob <= PROB_UNIT && death_prob <= PROB_UNIT;
                match r {
                    Ok(c) => {
                        &&& probs_ok
                        &&& num_people >= 1
                        &&& recovery_threshold_days >= 1
                        &&& c == (Config {
                            num_simulations,
                            num_people,
                            num_days,
                            infection_prob,
                            vaccination_prob,
                            transmission_prob,
                            death_prob,
                            recovery_threshold_days,
                        })
                        &&& c.wf()
                    },
                    Err(e) => {
                        &&& !(probs_ok && num_people >= 1 && recovery_threshold_days >= 1)
                        &&& e == ConfigError::ProbabilityOutOfRange <==> !probs_ok
                        &&& e == ConfigError::ZeroPopulation <==> (probs_ok && num_people == 0)
                        &&& e == ConfigError::ZeroRecoveryThreshold <==> (probs_ok && num_people
                            >= 1 && recovery_threshold_days == 0)
                    },
                }
            }),
    {
        if infection_prob > PROB_UNIT || vaccination_prob > PROB_UNIT || transmission_prob
            > PROB_UNIT || death_prob > PROB_UNIT {
            Err(ConfigError::ProbabilityOutOfRange)
        } else if num_people == 0 {
            Err(ConfigError::ZeroPopulation)
        } else if recovery_threshold_days == 0 {
            Err(ConfigError::ZeroRecoveryThreshold)
        } else {
            Ok(
                Config {
                    num_simulations,
                    num_people,
                    num_days,
                    infection_prob,
                    vaccination_prob,
                    transmission_prob,
                    death_prob,
                    recovery_threshold_days,
                },
            )
        }
    }
}

} // verus!

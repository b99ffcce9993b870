//! The choices a user makes: which surfaces and which ranges of gravity,
//! temperature and pressure a planet may have, and which resource is sought.

use crate::text::same_text;
use vstd::prelude::*;

verus! {

/// The kind of surface a planet must have to pass.
#[derive(PartialEq, Eq, Structural, Clone, Copy, Debug)]
pub enum SurfaceOption {
    Rocky,
    Gaseous,
    Both,
}

impl SurfaceOption {
    /// The name under which the option is shown and chosen.
    pub open spec fn label(self) -> Seq<char> {
        match self {
            SurfaceOption::Rocky => "Rocky"@,
            SurfaceOption::Gaseous => "Gaseous"@,
            SurfaceOption::Both => "Both"@,
        }
    }

    pub fn to_string(&self) -> (s: String)
        ensures
            s@ == self.label(),
    {
        match self {
            SurfaceOption::Rocky => "Rocky".to_owned(),
            SurfaceOption::Gaseous => "Gaseous".to_owned(),
            SurfaceOption::Both => "Both".to_owned(),
        }
    }
}

/// The option that a name stands for; a name that is none of the labels
/// stands for `Both`.
pub open spec fn surface_option_named(s: Seq<char>) -> SurfaceOption {
    if s == "Rocky"@ {
        SurfaceOption::Rocky
    } else if s == "Gaseous"@ {
        SurfaceOption::Gaseous
    } else {
        SurfaceOption::Both
    }
}

pub fn to_surface_option(s: &str) -> (o: SurfaceOption)
    ensures
        o == surface_option_named(s@),
{
    if same_text(s, "Rocky") {
        SurfaceOption::Rocky
    } else if same_text(s, "Gaseous") {
        SurfaceOption::Gaseous
    } else {
        SurfaceOption::Both
    }
}

/// Reading back the label of a surface option gives that option.
pub proof fn lemma_surface_label_round_trip(o: SurfaceOption)
    ensures
        surface_option_named(o.label()) == o,
{
    reveal_strlit("Rocky");
    reveal_strlit("Gaseous");
    reveal_strlit("Both");
    assert("Rocky"@.len() == 5);
    assert("Gaseous"@.len() == 7);
}

/// One of the three measured properties of a planet's environment.
#[derive(PartialEq, Eq, Structural, Clone, Copy, Debug)]
pub enum Environment {
    Gravity,
    Temp,
    Pressure,
}

/// The band of a measured property that a planet must lie in to pass.
#[derive(PartialEq, Eq, Structural, Clone, Copy, Debug)]
pub enum EnvironmentOption {
    Normal,
    Low,
    High,
    Ignore,
}

impl EnvironmentOption {
    /// The name under which the option is shown and chosen.
    pub open spec fn label(self) -> Seq<char> {
        match self {
            EnvironmentOption::Low => "Low"@,
            EnvironmentOption::Normal => "Normal"@,
            EnvironmentOption::High => "High"@,
            EnvironmentOption::Ignore => "Ignore"@,
        }
    }

    pub fn to_string(&self) -> (s: String)
        ensures
            s@ == self.label(),
    {
        match self {
            EnvironmentOption::Low => "Low".to_owned(),
            EnvironmentOption::Normal => "Normal".to_owned(),
            EnvironmentOption::High => "High".to_owned(),
            EnvironmentOption::Ignore => "Ignore".to_owned(),
        }
    }
}

/// The option that a name stands for; a name that is none of the labels
/// stands for `Ignore`.
pub open spec fn env_option_named(s: Seq<char>) -> EnvironmentOption {
    if s == "Low"@ {
        EnvironmentOption::Low
    } else if s == "Normal"@ {
        EnvironmentOption::Normal
    } else if s == "High"@ {
        EnvironmentOption::High
    } else {
        EnvironmentOption::Ignore
    }
}

pub fn to_env_option(s: &str) -> (o: EnvironmentOption)
    ensures
        o == env_option_named(s@),
{
    if same_text(s, "Low") {
        EnvironmentOption::Low
    } else if same_text(s, "Normal") {
        EnvironmentOption::Normal
    } else if same_text(s, "High") {
        EnvironmentOption::High
    } else {
        EnvironmentOption::Ignore
    }
}

/// Reading back the label of an environment option gives that option.
pub proof fn lemma_env_label_round_trip(o: EnvironmentOption)
    ensures
        env_option_named(o.label()) == o,
{
    reveal_strlit("Low");
    reveal_strlit("Normal");
    reveal_strlit("High");
    reveal_strlit("Ignore");
    assert("Low"@.len() == 3);
    assert("Normal"@.len() == 6);
    assert("Ignore"@[0] == 'I');
}

/// A switch that the user can flip.
#[derive(PartialEq, Eq, Structural, Clone, Copy, Debug)]
pub enum Toggle {
    ShowCx,
    ShowRoutes,
    IncEnvFilter,
    IncNormal,
}

/// The side of a control on which its caption stands.
#[derive(PartialEq, Eq, Structural, Clone, Copy, Debug)]
pub enum Position {
    L,
    R,
}

/// What the user asked to see.
#[derive(PartialEq, Eq, Debug)]
pub struct Filters {
    /// Whether planets are tested against the environment at all.
    pub env_filter: bool,
    /// Whether `Low` and `High` reach into the normal band.
    pub inc_normal: bool,
    pub surface: SurfaceOption,
    pub gravity: EnvironmentOption,
    pub temp: EnvironmentOption,
    pub pressure: EnvironmentOption,
    /// The ticker of the resource sought, if any.
    pub selected_resource_ticker: Option<String>,
}

/// A ticker, if there is one, as plain values.
pub open spec fn ticker_view(ticker: Option<String>) -> Option<Seq<char>> {
    match ticker {
        Some(t) => Some(t@),
        None => None,
    }
}

/// The filters as plain values.
pub struct FiltersView {
    pub env_filter: bool,
    pub inc_normal: bool,
    pub surface: SurfaceOption,
    pub gravity: EnvironmentOption,
    pub temp: EnvironmentOption,
    pub pressure: EnvironmentOption,
    pub selected_resource_ticker: Option<Seq<char>>,
}

impl View for Filters {
    type V = FiltersView;

    open spec fn view(&self) -> FiltersView {
        FiltersView {
            env_filter: self.env_filter,
            inc_normal: self.inc_normal,
            surface: self.surface,
            gravity: self.gravity,
            temp: self.temp,
            pressure: self.pressure,
            selected_resource_ticker: ticker_view(self.selected_resource_ticker),
        }
    }
}

impl Clone for Filters {
    fn clone(&self) -> (f: Self)
        ensures
            f@ == self@,
    {
        Filters {
            env_filter: self.env_filter,
            inc_normal: self.inc_normal,
            surface: self.surface,
            gravity: self.gravity,
            temp: self.temp,
            pressure: self.pressure,
            selected_resource_ticker: match &self.selected_resource_ticker {
                Some(t) => Some(t.clone()),
                None => None,
            },
        }
    }
}

/// The filters a session starts with: rocky planets whose gravity,
/// temperature and pressure are all normal, the normal band taken in by
/// `Low` and `High`, and no resource sought.
pub open spec fn initial_filters() -> FiltersView {
    FiltersView {
        env_filter: true,
        inc_normal: true,
        surface: SurfaceOption::Rocky,
        gravity: EnvironmentOption::Normal,
        temp: EnvironmentOption::Normal,
        pressure: EnvironmentOption::Normal,
        selected_resource_ticker: None,
    }
}

impl Filters {
    /// The filters a session starts with.
    pub fn new() -> (f: Self)
        ensures
            f@ == initial_filters(),
    {
        Filters {
            env_filter: true,
            inc_normal: true,
            surface: SurfaceOption::Rocky,
            gravity: EnvironmentOption::Normal,
            temp: EnvironmentOption::Normal,
            pressure: EnvironmentOption::Normal,
            selected_resource_ticker: None,
        }
    }
}

} // verus!

//! The brand the deployment runs under.

use vstd::prelude::*;

use crate::text::{lowercased, str_equals, to_lowercase};

verus! {

/// Branding configuration for the application.
#[derive(Debug, Clone, Copy, PartialEq, Eq)]
pub enum Brand {
    Warp,
    Seb,
}

/// The brand a lower-cased name stands for.
pub open spec fn brand_of_lowercase(s: Seq<char>) -> Option<Brand> {
    if s == "seb"@ {
        Some(Brand::Seb)
    } else if s == "warp"@ {
        Some(Brand::Warp)
    } else {
        None
    }
}

impl Brand {
    /// The brand that an already lower-cased name stands for.
    pub fn from_lowercase(s: &str) -> (r: Option<Brand>)
        ensures
            r == brand_of_lowercase(s@),
    {
        if str_equals(s, "seb") {
            Some(Brand::Seb)
        } else if str_equals(s, "warp") {
            Some(Brand::Warp)
        } else {
            None
        }
    }

    /// Parse a brand name, ignoring case.
    pub fn from_str(s: &str) -> (r: Option<Brand>)
        ensures
            r == brand_of_lowercase(lowercased(s@)),
    {
        let lower = to_lowercase(s);
        Brand::from_lowercase(lower.as_str())
    }

    /// The brand configured by the value of the `BRAND` variable, if it is
    /// set; an unknown or missing value means WARP.
    pub fn from_env_value(value: Option<&str>) -> (r: Brand)
        ensures
            r == (match value {
                Some(v) => match brand_of_lowercase(lowercased(v@)) {
                    Some(b) => b,
                    None => Brand::Warp,
                },
                None => Brand::Warp,
            }),
    {
        match value {
            Some(v) => match Brand::from_str(v) {
                Some(b) => b,
                None => Brand::Warp,
            },
            None => Brand::Warp,
        }
    }
}

impl Default for Brand {
    fn default() -> (b: Brand)
        ensures
            b == Brand::Warp,
    {
        Brand::Warp
    }
}

} // verus!

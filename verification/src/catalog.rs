//! The closed family of systems that the engine knows by name.

use vstd::prelude::*;

verus! {

/// One of the dynamical systems of the family.
#[derive(Clone, Copy, Debug, PartialEq, Eq, Structural)]
pub enum Variant {
    Trigonometric,
    Clifford,
    Quadratic,
    Symmetric,
    Polar,
    Duffing,
    Lorenz,
    DoublePendulum,
}

/// Steps of a discrete map that are thrown away before anything is measured
/// or counted.
pub const TRANSIENT_STEPS: usize = 500;

/// Steps that the search for the extent of a discrete map takes.
pub const MAP_EDGE_SAMPLES: usize = 50000;

/// Least number of steps that the search for the extent of a flow takes.
pub const FLOW_EDGE_SAMPLES: usize = 100000;

/// The variant whose display name is `name`, if there is one.
pub open spec fn variant_named(name: Seq<char>) -> Option<Variant> {
    if name == "Trigonometric Attractor"@ {
        Some(Variant::Trigonometric)
    } else if name == "Clifford Attractor"@ {
        Some(Variant::Clifford)
    } else if name == "Quadratic Attractor"@ {
        Some(Variant::Quadratic)
    } else if name == "Symmetric Attractor"@ {
        Some(Variant::Symmetric)
    } else if name == "Polar Attractor"@ {
        Some(Variant::Polar)
    } else if name == "Lorenz Attractor"@ {
        Some(Variant::Lorenz)
    } else if name == "Duffing Attractor"@ {
        Some(Variant::Duffing)
    } else if name == "DoublePendulum"@ {
        Some(Variant::DoublePendulum)
    } else {
        None
    }
}

impl Variant {
    /// Display name; a stored record names its variant by it.
    pub open spec fn spec_name(self) -> Seq<char> {
        match self {
            Variant::Trigonometric => "Trigonometric Attractor"@,
            Variant::Clifford => "Clifford Attractor"@,
            Variant::Quadratic => "Quadratic Attractor"@,
            Variant::Symmetric => "Symmetric Attractor"@,
            Variant::Polar => "Polar Attractor"@,
            Variant::Duffing => "Duffing Attractor"@,
            Variant::Lorenz => "Lorenz Attractor"@,
            Variant::DoublePendulum => "DoublePendulum"@,
        }
    }

    /// The update rule in words, for display only.
    pub open spec fn spec_map_str(self) -> Seq<char> {
        match self {
            Variant::Trigonometric => {
                "x = sin(a0 * x^2 + a1 * xy + a2 * y^2 + a3), y = cos(a4 * x^2 + a5 * xy + a6 * y^2 + a7)"@
            },
            Variant::Clifford => {
                "x = a0 * sin(a1 * y) + a2 * cos(a3 * x), y = a4 * sin(a5 * x) + a6 * cos(a7 * y)"@
            },
            Variant::Quadratic => {
                "x = a0 * x^2 + a1 * x + a2 * x * y + a3 * y + a4 * y^2 + a5, y = a6 * x^2 + a7 * x + a8 * x * y + a9 * y + a10 * y^2 + a11"@
            },
            Variant::Symmetric => {
                "z = (a1 + a2 * |z|^2 + a3 * (z^a0).real + a4 * zi) * z +  a5 * z^(a0 - 1) (symmetry if a4 == 0)"@
            },
            Variant::Polar => {
                "x = a0 * sin(a1 * y) + a2 * tanh(1 - y * y), y = a3 * (sin(a0 * (2 + x * x)/(2 - y * y)) - x) + a4 * x / cosh(x + y)"@
            },
            Variant::Duffing => "dx/dt = y, dy/dt = x - x^3 + a0 * y + a1 * cos(a2 * t)"@,
            Variant::Lorenz => {
                "dx/dt = a0 * (y - x), dy/dt = x * (a1 - z) - y, dz/dt = x * y - a3 * z"@
            },
            Variant::DoublePendulum => {
                "Runge Kutta4 theta: a0, a1, omega: a2, a3, length: x0, x1, mass: x2, x3, g: x4"@
            },
        }
    }

    /// Number of components of a point in phase space.
    pub open spec fn spec_dimension(self) -> nat {
        match self {
            Variant::Lorenz => 3,
            Variant::DoublePendulum => 4,
            _ => 2,
        }
    }

    /// Number of free coefficients.
    pub open spec fn spec_coef_count(self) -> nat {
        match self {
            Variant::Trigonometric => 8,
            Variant::Clifford => 8,
            Variant::Quadratic => 12,
            Variant::Symmetric => 6,
            Variant::Polar => 5,
            Variant::Duffing => 3,
            Variant::Lorenz => 3,
            Variant::DoublePendulum => 5,
        }
    }

    /// Whether the system is a differential equation integrated with a fixed
    /// time step, rather than an iterated map.
    pub open spec fn spec_is_flow(self) -> bool {
        self == Variant::Duffing || self == Variant::Lorenz || self == Variant::DoublePendulum
    }

    /// Whether a render of this variant keeps its grid of counts for the
    /// next render.
    pub open spec fn spec_caches(self) -> bool {
        self == Variant::Symmetric || self == Variant::Polar || self == Variant::DoublePendulum
    }

    /// Steps at the start of a run that are neither measured nor counted.
    pub open spec fn spec_skip(self) -> nat {
        if self.spec_is_flow() {
            0
        } else {
            TRANSIENT_STEPS as nat
        }
    }

    /// Steps that the search for the extent takes before a render of `n`
    /// steps.
    pub open spec fn spec_edge_samples(self, n: nat) -> nat {
        if self.spec_is_flow() {
            if n / 10 > FLOW_EDGE_SAMPLES {
                n / 10
            } else {
                FLOW_EDGE_SAMPLES as nat
            }
        } else {
            MAP_EDGE_SAMPLES as nat
        }
    }

    /// Display name.
    pub fn name(self) -> (name: &'static str)
        ensures
            name@ == self.spec_name(),
    {
        match self {
            Variant::Trigonometric => "Trigonometric Attractor",
            Variant::Clifford => "Clifford Attractor",
            Variant::Quadratic => "Quadratic Attractor",
            Variant::Symmetric => "Symmetric Attractor",
            Variant::Polar => "Polar Attractor",
            Variant::Duffing => "Duffing Attractor",
            Variant::Lorenz => "Lorenz Attractor",
            Variant::DoublePendulum => "DoublePendulum",
        }
    }

    /// The update rule in words, for display only.
    pub fn map_str(self) -> (text: &'static str)
        ensures
            text@ == self.spec_map_str(),
    {
        match self {
            Variant::Trigonometric => {
                "x = sin(a0 * x^2 + a1 * xy + a2 * y^2 + a3), y = cos(a4 * x^2 + a5 * xy + a6 * y^2 + a7)"
            },
            Variant::Clifford => {
                "x = a0 * sin(a1 * y) + a2 * cos(a3 * x), y = a4 * sin(a5 * x) + a6 * cos(a7 * y)"
            },
            Variant::Quadratic => {
                "x = a0 * x^2 + a1 * x + a2 * x * y + a3 * y + a4 * y^2 + a5, y = a6 * x^2 + a7 * x + a8 * x * y + a9 * y + a10 * y^2 + a11"
            },
            Variant::Symmetric => {
                "z = (a1 + a2 * |z|^2 + a3 * (z^a0).real + a4 * zi) * z +  a5 * z^(a0 - 1) (symmetry if a4 == 0)"
            },
            Variant::Polar => {
                "x = a0 * sin(a1 * y) + a2 * tanh(1 - y * y), y = a3 * (sin(a0 * (2 + x * x)/(2 - y * y)) - x) + a4 * x / cosh(x + y)"
            },
            Variant::Duffing => "dx/dt = y, dy/dt = x - x^3 + a0 * y + a1 * cos(a2 * t)",
            Variant::Lorenz => {
                "dx/dt = a0 * (y - x), dy/dt = x * (a1 - z) - y, dz/dt = x * y - a3 * z"
            },
            Variant::DoublePendulum => {
                "Runge Kutta4 theta: a0, a1, omega: a2, a3, length: x0, x1, mass: x2, x3, g: x4"
            },
        }
    }

    /// Number of components of a point in phase space.
    pub fn dimension(self) -> (n: usize)
        ensures
            n == self.spec_dimension(),
    {
        match self {
            Variant::Lorenz => 3,
            Variant::DoublePendulum => 4,
            _ => 2,
        }
    }

    /// Number of free coefficients.
    pub fn coef_count(self) -> (n: usize)
        ensures
            n == self.spec_coef_count(),
    {
        match self {
            Variant::Trigonometric => 8,
            Variant::Clifford => 8,
            Variant::Quadratic => 12,
            Variant::Symmetric => 6,
            Variant::Polar => 5,
            Variant::Duffing => 3,
            Variant::Lorenz => 3,
            Variant::DoublePendulum => 5,
        }
    }

    /// Whether the system advances simulated time by a fixed step.
    pub fn is_flow(self) -> (flow: bool)
        ensures
            flow == self.spec_is_flow(),
    {
        match self {
            Variant::Duffing => true,
            Variant::Lorenz => true,
            Variant::DoublePendulum => true,
            _ => false,
        }
    }

    /// Whether a render keeps its grid of counts for the next render.
    pub fn caches(self) -> (keeps: bool)
        ensures
            keeps == self.spec_caches(),
    {
        match self {
            Variant::Symmetric => true,
            Variant::Polar => true,
            Variant::DoublePendulum => true,
            _ => false,
        }
    }

    /// Steps at the start of a run that are neither measured nor counted.
    pub fn skip(self) -> (steps: usize)
        ensures
            steps == self.spec_skip(),
    {
        if self.is_flow() {
            0
        } else {
            TRANSIENT_STEPS
        }
    }

    /// Steps that the search for the extent takes before a render of `n`
    /// steps.
    pub fn edge_samples(self, n: usize) -> (steps: usize)
        ensures
            steps == self.spec_edge_samples(n as nat),
    {
        if self.is_flow() {
            if n / 10 > FLOW_EDGE_SAMPLES {
                n / 10
            } else {
                FLOW_EDGE_SAMPLES
            }
        } else {
            MAP_EDGE_SAMPLES
        }
    }

    /// The variant with the display name `name`; `None` when no variant has
    /// that name.
    pub fn from_name(name: &str) -> (found: Option<Variant>)
        ensures
            found == variant_named(name@),
    {
        let name = name.to_owned();
        if name == Variant::Trigonometric.name().to_owned() {
            Some(Variant::Trigonometric)
        } else if name == Variant::Clifford.name().to_owned() {
            Some(Variant::Clifford)
        } else if name == Variant::Quadratic.name().to_owned() {
            Some(Variant::Quadratic)
        } else if name == Variant::Symmetric.name().to_owned() {
            Some(Variant::Symmetric)
        } else if name == Variant::Polar.name().to_owned() {
            Some(Variant::Polar)
        } else if name == Variant::Lorenz.name().to_owned() {
            Some(Variant::Lorenz)
        } else if name == Variant::Duffing.name().to_owned() {
            Some(Variant::Duffing)
        } else if name == Variant::DoublePendulum.name().to_owned() {
            Some(Variant::DoublePendulum)
        } else {
            None
        }
    }
}

/// No two variants share a display name: looking a variant up by its own
/// name finds that variant.
pub proof fn lemma_name_identifies(v: Variant)
    ensures
        variant_named(v.spec_name()) == Some(v),
{
    reveal_strlit("Trigonometric Attractor");
    reveal_strlit("Clifford Attractor");
    reveal_strlit("Quadratic Attractor");
    reveal_strlit("Symmetric Attractor");
    reveal_strlit("Polar Attractor");
    reveal_strlit("Duffing Attractor");
    reveal_strlit("Lorenz Attractor");
    reveal_strlit("DoublePendulum");
    assert("Trigonometric Attractor"@.len() == 23);
    assert("Clifford Attractor"@.len() == 18);
    assert("Quadratic Attractor"@.len() == 19);
    assert("Symmetric Attractor"@.len() == 19);
    assert("Polar Attractor"@.len() == 15);
    assert("Duffing Attractor"@.len() == 17);
    assert("Lorenz Attractor"@.len() == 16);
    assert("DoublePendulum"@.len() == 14);
    assert("Quadratic Attractor"@[0] == 'Q');
    assert("Symmetric Attractor"@[0] == 'S');
}

} // verus!

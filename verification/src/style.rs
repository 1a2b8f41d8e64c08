//! Colours, and how a geometry comes by its style options.

use crate::scalar::{Scalar, ONE};
use vstd::prelude::*;

verus! {

/// A colour of four 8-bit channels, not premultiplied.
#[derive(Clone, Copy, Debug, PartialEq, Eq, Structural)]
pub struct Color {
    pub red: u8,
    pub green: u8,
    pub blue: u8,
    pub alpha: u8,
}

/// The colours a geometry is painted with.
#[derive(Clone, Copy, Debug, PartialEq, Eq, Structural)]
pub struct ColorOptions {
    /// Fills the geometry.
    pub foreground: Color,
    /// Strokes its border.
    pub background: Color,
    /// The border's width in pixels; without one no border is drawn.
    pub border: Option<Scalar>,
    pub anti_alias: bool,
}

impl ColorOptions {
    /// A light fill with a dark border of one pixel, anti-aliased.
    pub open spec fn standard() -> ColorOptions {
        ColorOptions {
            foreground: Color { red: 248, green: 248, blue: 248, alpha: 255 },
            background: Color { red: 26, green: 26, blue: 26, alpha: 255 },
            border: Some(Scalar { bits: ONE }),
            anti_alias: true,
        }
    }
}

impl Default for ColorOptions {
    fn default() -> (out: Self)
        ensures
            out == ColorOptions::standard(),
    {
        ColorOptions {
            foreground: Color { red: 248, green: 248, blue: 248, alpha: 255 },
            background: Color { red: 26, green: 26, blue: 26, alpha: 255 },
            border: Some(Scalar { bits: ONE }),
            anti_alias: true,
        }
    }
}

/// A style computed for each geometry it is asked about.
pub trait StyleFn<G, O> {
    /// Whether `options` is a value that this function may return for
    /// `geometry`. An implementation that does not say is taken to allow
    /// every value.
    open spec fn yields(&self, geometry: &G, options: O) -> bool {
        true
    }

    fn options(&self, geometry: &G) -> (out: O)
        ensures
            self.yields(geometry, out),
    ;
}

/// A style function given as a closure.
#[verifier::reject_recursive_types(G)]
#[verifier::reject_recursive_types(O)]
#[verifier::reject_recursive_types(F)]
pub struct Computed<G, O, F: Fn(&G) -> O> {
    function: F,
    geometry: core::marker::PhantomData<G>,
    options: core::marker::PhantomData<O>,
}

impl<G, O, F: Fn(&G) -> O> Computed<G, O, F> {
    #[verifier::type_invariant]
    spec fn callable(self) -> bool {
        forall|geometry: &G| #[trigger] call_requires(self.function, (geometry,))
    }

    /// The closure that was wrapped.
    pub closed spec fn function(self) -> F {
        self.function
    }

    pub fn new(function: F) -> (out: Self)
        requires
            forall|geometry: &G| #[trigger] call_requires(function, (geometry,)),
        ensures
            out.function() == function,
    {
        Computed {
            function,
            geometry: core::marker::PhantomData,
            options: core::marker::PhantomData,
        }
    }
}

impl<G, O, F: Fn(&G) -> O> StyleFn<G, O> for Computed<G, O, F> {
    open spec fn yields(&self, geometry: &G, options: O) -> bool {
        call_ensures(self.function(), (geometry,), options)
    }

    fn options(&self, geometry: &G) -> (out: O) {
        proof {
            use_type_invariant(self);
        }
        (self.function)(geometry)
    }
}

/// Where the options of a geometry come from.
#[verifier::reject_recursive_types(G)]
#[verifier::reject_recursive_types(O)]
pub enum Style<G, O> {
    /// The same options for every geometry.
    Static(O),
    /// Options computed from the geometry that is being drawn.
    Dynamic(Box<dyn StyleFn<G, O>>),
}

impl<G, O: Clone> Style<G, O> {
    /// Whether `options` is what this style may resolve to for `geometry`: a
    /// clone of the fixed options, or a value that the style function yields.
    pub open spec fn resolves(&self, geometry: &G, options: O) -> bool {
        match self {
            Style::Static(fixed) => cloned(*fixed, options),
            Style::Dynamic(function) => function.yields(geometry, options),
        }
    }

    /// The options to draw `geometry` with.
    pub fn resolve(&self, geometry: &G) -> (out: O)
        ensures
            self.resolves(geometry, out),
    {
        match self {
            Style::Static(fixed) => fixed.clone(),
            Style::Dynamic(function) => function.options(geometry),
        }
    }
}

/// A fixed style pays no regard to the geometry: what it may resolve to for
/// one geometry it may resolve to for any other, and its own options are
/// always among that.
pub proof fn fixed_style_ignores_the_geometry<G, O: Clone>(
    fixed: O,
    first: &G,
    second: &G,
    options: O,
)
    ensures
        (Style::<G, O>::Static(fixed)).resolves(first, options) == (Style::<G, O>::Static(
            fixed,
        )).resolves(second, options),
        (Style::<G, O>::Static(fixed)).resolves(first, fixed),
{
}

/// Where the options clone to equal values, a fixed style resolves to
/// exactly its options.
pub proof fn fixed_style_is_exact<G, O: Clone>(fixed: O, geometry: &G, options: O)
    requires
        forall|source: O, copy: O| #[trigger]
            call_ensures(O::clone, (&source,), copy) ==> copy == source,
        (Style::<G, O>::Static(fixed)).resolves(geometry, options),
    ensures
        options == fixed,
{
}

/// A computed style resolves to what its function yields for the geometry
/// that is asked about.
pub proof fn dynamic_style_is_its_function<G, O: Clone>(
    style: Style<G, O>,
    geometry: &G,
    options: O,
)
    ensures
        style matches Style::Dynamic(function) ==> style.resolves(geometry, options)
            == function.yields(geometry, options),
{
}

/// A style function given as a closure yields what a call of the closure
/// may return.
pub proof fn computed_yields_what_its_closure_returns<G, O, F: Fn(&G) -> O>(
    computed: Computed<G, O, F>,
    geometry: &G,
    options: O,
)
    ensures
        computed.yields(geometry, options) == call_ensures(
            computed.function(),
            (geometry,),
            options,
        ),
{
}

} // verus!

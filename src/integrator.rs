use vstd::prelude::*;
use crate::color::{Color, modulated, modulate};

verus! {

/// The number of scatter events after which a light path is cut off: a ray
/// that hits a surface at this depth counts as absorbed.
pub const MAX_DEPTH: usize = 50;

/// The colour that reaches the camera along a path whose scatter events had
/// the attenuations `atts` (nearest to the camera first) and whose last ray
/// ended with the colour `terminal`: `atts[0] ⊙ (atts[1] ⊙ (… ⊙ terminal))`.
pub open spec fn path_color(atts: Seq<Color>, terminal: Color) -> Color
    decreases atts.len(),
{
    if atts.len() == 0 {
        terminal
    } else {
        modulated(atts[0], path_color(atts.drop_first(), terminal))
    }
}

/// The scatter events of one camera ray, in the order they happened.
pub struct LightPath {
    attenuations: Vec<Color>,
}

impl View for LightPath {
    type V = Seq<Color>;

    closed spec fn view(&self) -> Seq<Color> {
        self.attenuations@
    }
}

impl LightPath {
    /// A path that has not met any surface yet.
    pub fn new() -> (p: Self)
        ensures
            p@ == Seq::<Color>::empty(),
    {
        Self { attenuations: Vec::new() }
    }

    /// The number of scatter events so far.
    pub fn depth(&self) -> (d: usize)
        ensures
            d == self@.len(),
    {
        self.attenuations.len()
    }

    /// Whether a surface hit now may still scatter the ray; past the depth
    /// cap the ray is absorbed instead.
    pub fn can_scatter(&self) -> (b: bool)
        ensures
            b == (self@.len() < MAX_DEPTH),
    {
        self.attenuations.len() < MAX_DEPTH
    }

    /// Records a scatter event with the given attenuation.
    pub fn record_scatter(&mut self, attenuation: Color)
        requires
            old(self)@.len() < MAX_DEPTH,
        ensures
            final(self)@ == old(self)@.push(attenuation),
    {
        self.attenuations.push(attenuation);
    }

    /// The colour seen along the path, given the colour with which its last
    /// ray ended: the sky colour on a miss, black when absorbed.
    pub fn finish(&self, terminal: Color) -> (c: Color)
        ensures
            c == path_color(self@, terminal),
    {
        let n = self.attenuations.len();
        let mut acc = terminal;
        let mut i: usize = n;
        proof {
            assert(self.attenuations@.subrange(n as int, n as int) =~= Seq::<Color>::empty());
        }
        while i > 0
            invariant
                i <= n,
                n == self.attenuations@.len(),
                acc == path_color(self.attenuations@.subrange(i as int, n as int), terminal),
            decreases i,
        {
            i = i - 1;
            let next = self.attenuations[i].difuse(&acc);
            proof {
                let s = self.attenuations@.subrange(i as int, n as int);
                assert(s.drop_first() =~= self.attenuations@.subrange(i as int + 1, n as int));
            }
            acc = next;
        }
        proof {
            assert(self.attenuations@.subrange(0, n as int) =~= self.attenuations@);
        }
        acc
    }
}

/// A path that ends absorbed is black, whatever it met before.
pub proof fn lemma_absorbed_path_is_black(atts: Seq<Color>)
    ensures
        path_color(atts, Color(0, 0, 0, 255)) == Color(0, 0, 0, 255),
    decreases atts.len(),
{
    if atts.len() > 0 {
        lemma_absorbed_path_is_black(atts.drop_first());
    }
}

/// A white attenuation (clear glass) passes light on unchanged.
pub proof fn lemma_white_transmits(c: Color)
    ensures
        modulated(Color(255, 255, 255, 255), c) == Color(c.0, c.1, c.2, 255),
{
    assert(255 * (c.0 as int) / 255 == c.0) by (nonlinear_arith);
    assert(255 * (c.1 as int) / 255 == c.1) by (nonlinear_arith);
    assert(255 * (c.2 as int) / 255 == c.2) by (nonlinear_arith);
}

proof fn lemma_modulate_le(a: u8, b: u8)
    ensures
        modulate(a, b) <= b,
{
    assert(a as int * b as int / 255 <= b as int) by (nonlinear_arith)
        requires
            a <= 255,
            b <= 255,
    ;
}

/// Every scatter event only removes light: no channel of what a path
/// delivers is brighter than the colour its last ray ended with.
pub proof fn lemma_path_never_brightens(atts: Seq<Color>, terminal: Color)
    ensures
        path_color(atts, terminal).0 <= terminal.0,
        path_color(atts, terminal).1 <= terminal.1,
        path_color(atts, terminal).2 <= terminal.2,
    decreases atts.len(),
{
    if atts.len() > 0 {
        let rest = path_color(atts.drop_first(), terminal);
        lemma_path_never_brightens(atts.drop_first(), terminal);
        lemma_modulate_le(atts[0].0, rest.0);
        lemma_modulate_le(atts[0].1, rest.1);
        lemma_modulate_le(atts[0].2, rest.2);
    }
}

} // verus!

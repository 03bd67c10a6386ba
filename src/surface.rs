use vstd::prelude::*;

verus! {

#[verifier::external_type_specification]
#[verifier::external_body]
pub struct ExTextureFormat(wgpu::TextureFormat);

/// Whether wgpu counts a texture format as sRGB; it depends on the format alone.
pub uninterp spec fn srgb_of(f: wgpu::TextureFormat) -> bool;

/// Relies on wgpu::TextureFormat::describe, whose `srgb` field tells whether
/// the format converts colours between sRGB and linear. `describe` is total.
#[verifier::external_body]
fn format_is_srgb(format: &wgpu::TextureFormat) -> (r: bool)
    ensures
        r == srgb_of(*format),
{
    format.describe().srgb
}

/// The index of the first `true` in `srgb`, or 0 when there is none.
pub open spec fn preferred_index(srgb: Seq<bool>) -> int {
    if exists|i: int| 0 <= i < srgb.len() && srgb[i] {
        choose|i: int|
            0 <= i < srgb.len() && srgb[i] && forall|j: int| 0 <= j < i ==> !srgb[j]
    } else {
        0
    }
}

/// Picks among the formats a surface supports, given for each whether it is
/// an sRGB format: the first sRGB one, else the first of all.
pub fn preferred_format_index(srgb: &Vec<bool>) -> (r: usize)
    ensures
        r == preferred_index(srgb@),
        (exists|i: int| 0 <= i < srgb@.len() && srgb@[i]) ==> r < srgb@.len() && srgb@[r as int]
            && forall|j: int| 0 <= j < r ==> !srgb@[j],
        (forall|i: int| 0 <= i < srgb@.len() ==> !srgb@[i]) ==> r == 0,
{
    let mut i: usize = 0;
    while i < srgb.len()
        invariant
            i <= srgb@.len(),
            forall|j: int| 0 <= j < i ==> !srgb@[j],
        decreases srgb@.len() - i,
    {
        if srgb[i] {
            proof {
                let k = preferred_index(srgb@);
                assert(0 <= k < srgb@.len() && srgb@[k] && forall|j: int| 0 <= j < k ==> !srgb@[j]);
                if k < i {
                    assert(!srgb@[k]);
                }
                if k > i {
                    assert(!srgb@[i as int]);
                }
            }
            return i;
        }
        i = i + 1;
    }
    0
}

/// The format to configure a surface with: the first sRGB format among those
/// it supports, else the first one. The shaders assume an sRGB target.
pub fn choose_surface_format(formats: &Vec<wgpu::TextureFormat>) -> (r: wgpu::TextureFormat)
    requires
        formats@.len() > 0,
    ensures
        r == formats@[preferred_index(formats@.map_values(|f: wgpu::TextureFormat| srgb_of(f)))],
{
    let mut srgb: Vec<bool> = Vec::new();
    let mut i: usize = 0;
    while i < formats.len()
        invariant
            i <= formats@.len(),
            srgb@ == formats@.subrange(0, i as int).map_values(|f: wgpu::TextureFormat| srgb_of(f)),
        decreases formats@.len() - i,
    {
        srgb.push(format_is_srgb(&formats[i]));
        i = i + 1;
        assert(srgb@ =~= formats@.subrange(0, i as int).map_values(|f: wgpu::TextureFormat| srgb_of(f)));
    }
    assert(formats@.subrange(0, formats@.len() as int) =~= formats@);
    let k = preferred_format_index(&srgb);
    formats[k]
}

} // verus!

//! Material synthesis: from one parsed material record of the classic
//! ambient / diffuse / specular model to one physically-based material.

use vstd::prelude::*;
use crate::texture::{
    plan_texture, resolve, resolve_path, resolved_path, resolved_texture, TextureOutcome,
    TextureRequest,
};

verus! {

/// An opaque colour.
#[derive(Clone, Copy, Debug, PartialEq)]
pub struct Rgb<S> {
    pub r: S,
    pub g: S,
    pub b: S,
}

/// A colour with opacity.
#[derive(Clone, Copy, Debug, PartialEq)]
pub struct Rgba<S> {
    pub r: S,
    pub g: S,
    pub b: S,
    pub a: S,
}

/// The shading approximation that a renderer is to use for a material.
#[derive(Clone, Copy, Debug, PartialEq, Eq)]
pub enum LightingModel {
    Phong,
    Blinn,
    Cook,
}

/// One material as the parser hands it over.
#[derive(Clone, Debug, PartialEq)]
pub struct MaterialRecord<S> {
    pub name: String,
    pub ambient: Rgb<S>,
    pub diffuse: Rgb<S>,
    pub specular: Rgb<S>,
    pub shininess: S,
    /// Opacity, from 0 (clear) to 1 (opaque).
    pub dissolve: S,
    pub ambient_texture: String,
    pub diffuse_texture: String,
    pub specular_texture: String,
    pub normal_texture: String,
    pub shininess_texture: String,
    pub dissolve_texture: String,
}

/// A physically-based material with textures of type `X`.
#[derive(Clone, Debug, PartialEq)]
pub struct PbrMaterial<S, X> {
    pub name: String,
    pub albedo: Rgba<S>,
    pub albedo_texture: Option<X>,
    pub metallic: S,
    pub roughness: S,
    pub metallic_roughness_texture: Option<X>,
    pub normal_texture: Option<X>,
    pub lighting_model: LightingModel,
}

/// What is to be read for the three texture slots of one material.
#[derive(Clone, Debug, PartialEq, Eq)]
pub struct TexturePlan {
    /// From the diffuse texture reference.
    pub albedo: Option<TextureRequest>,
    /// From the specular texture reference.
    pub metallic_roughness: Option<TextureRequest>,
    /// From the normal texture reference.
    pub normal: Option<TextureRequest>,
}

/// How loading ended for each texture slot of one material; `None` where
/// nothing was requested.
#[derive(Clone, Debug, PartialEq, Eq)]
pub struct TextureOutcomes<X> {
    pub albedo: Option<TextureOutcome<X>>,
    pub metallic_roughness: Option<TextureOutcome<X>>,
    pub normal: Option<TextureOutcome<X>>,
}

/// `request` is what [`plan_texture`] decides for `reference` under `base`.
pub open spec fn plans(
    request: Option<TextureRequest>,
    base: Seq<char>,
    reference: Seq<char>,
) -> bool {
    &&& request is None <==> reference.len() == 0
    &&& request matches Some(r) ==> r.key@ == reference && r.path@ == resolved_path(
        base,
        reference,
    )
}

/// Plans the texture loads of one material: the diffuse reference feeds the
/// albedo slot, the specular reference the metallic-roughness slot and the
/// normal reference the normal slot. The ambient, dissolve and shininess
/// references feed no slot and are not loaded.
pub fn plan_textures<S>(base_dir: &str, record: &MaterialRecord<S>) -> (plan: TexturePlan)
    ensures
        plans(plan.albedo, base_dir@, record.diffuse_texture@),
        plans(plan.metallic_roughness, base_dir@, record.specular_texture@),
        plans(plan.normal, base_dir@, record.normal_texture@),
{
    TexturePlan {
        albedo: plan_texture(base_dir, record.diffuse_texture.as_str()),
        metallic_roughness: plan_texture(base_dir, record.specular_texture.as_str()),
        normal: plan_texture(base_dir, record.normal_texture.as_str()),
    }
}

/// The six texture references of one record, in the order in which they are
/// loaded: diffuse, ambient, normal, specular, dissolve, shininess.
pub open spec fn references_of<S>(record: MaterialRecord<S>) -> Seq<Seq<char>> {
    seq![
        record.diffuse_texture@,
        record.ambient_texture@,
        record.normal_texture@,
        record.specular_texture@,
        record.dissolve_texture@,
        record.shininess_texture@,
    ]
}

/// The texture references of all `records`, record after record.
pub open spec fn all_references<S>(records: Seq<MaterialRecord<S>>) -> Seq<Seq<char>>
    decreases records.len(),
{
    if records.len() == 0 {
        Seq::empty()
    } else {
        all_references(records.drop_last()) + references_of(records.last())
    }
}

/// `seen` with `reference` noted: added at the end unless it is empty or
/// already there.
pub open spec fn noted(seen: Seq<Seq<char>>, reference: Seq<char>) -> Seq<Seq<char>> {
    if reference.len() == 0 || seen.contains(reference) {
        seen
    } else {
        seen.push(reference)
    }
}

/// The non-empty references among `references`, each once, in the order of
/// their first occurrence.
pub open spec fn first_occurrences(references: Seq<Seq<char>>) -> Seq<Seq<char>>
    decreases references.len(),
{
    if references.len() == 0 {
        Seq::empty()
    } else {
        noted(first_occurrences(references.drop_last()), references.last())
    }
}

/// The keys of `requests`, in order.
pub open spec fn keys_of(requests: Seq<TextureRequest>) -> Seq<Seq<char>> {
    Seq::new(requests.len(), |k: int| requests[k].key@)
}

/// Every request of `requests` reads the file that its key resolves to under
/// `base`.
pub open spec fn paths_resolved(requests: Seq<TextureRequest>, base: Seq<char>) -> bool {
    forall|k: int|
        0 <= k < requests.len() ==> (#[trigger] requests[k]).path@ == resolved_path(
            base,
            requests[k].key@,
        )
}

/// [`first_occurrences`] holds no reference twice and no empty one, and it
/// holds exactly the non-empty references of its argument.
pub proof fn lemma_first_occurrences(references: Seq<Seq<char>>)
    ensures
        first_occurrences(references).no_duplicates(),
        forall|r: Seq<char>| #[trigger]
            first_occurrences(references).contains(r) ==> r.len() > 0 && references.contains(r),
        forall|r: Seq<char>|
            r.len() > 0 && #[trigger] references.contains(r) ==> first_occurrences(
                references,
            ).contains(r),
    decreases references.len(),
{
    if references.len() > 0 {
        let rest = references.drop_last();
        let last = references.last();
        let before = first_occurrences(rest);
        let after = first_occurrences(references);
        lemma_first_occurrences(rest);
        assert(references[references.len() - 1] == last);
        assert forall|r: Seq<char>| #[trigger] after.contains(r) implies r.len() > 0
            && references.contains(r) by {
            let k = choose|k: int| 0 <= k < after.len() && after[k] == r;
            if k < before.len() {
                assert(before[k] == r);
                assert(before.contains(r));
                assert(rest.contains(r));
                let j = choose|j: int| 0 <= j < rest.len() && rest[j] == r;
                assert(references[j] == r);
            }
        }
        assert forall|r: Seq<char>| r.len() > 0 && #[trigger] references.contains(
            r,
        ) implies after.contains(r) by {
            let j = choose|j: int| 0 <= j < references.len() && references[j] == r;
            if j < rest.len() {
                assert(rest[j] == r);
                assert(rest.contains(r));
            }
            if before.contains(r) {
                let k = choose|k: int| 0 <= k < before.len() && before[k] == r;
                assert(after[k] == r);
            } else {
                assert(r == last);
                assert(after[after.len() - 1] == r);
            }
        }
    }
}

/// Every non-empty texture reference of every record is among the first
/// occurrences of all references, so that its file is planned for reading.
pub proof fn lemma_every_reference_is_planned<S>(
    records: Seq<MaterialRecord<S>>,
    k: int,
    slot: int,
)
    requires
        0 <= k < records.len(),
        0 <= slot < 6,
        references_of(records[k])[slot].len() > 0,
    ensures
        first_occurrences(all_references(records)).contains(references_of(records[k])[slot]),
{
    lemma_all_references_hold(records, k, slot);
    lemma_first_occurrences(all_references(records));
}

proof fn lemma_all_references_hold<S>(records: Seq<MaterialRecord<S>>, k: int, slot: int)
    requires
        0 <= k < records.len(),
        0 <= slot < 6,
    ensures
        all_references(records).contains(references_of(records[k])[slot]),
    decreases records.len(),
{
    let rest = all_references(records.drop_last());
    let all = all_references(records);
    let wanted = references_of(records[k])[slot];
    if k == records.len() - 1 {
        assert(all[rest.len() + slot] == wanted);
    } else {
        lemma_all_references_hold(records.drop_last(), k, slot);
        let j = choose|j: int| 0 <= j < rest.len() && rest[j] == wanted;
        assert(all[j] == wanted);
    }
}

/// Notes one reference in the list of reads, unless it is empty or already
/// there.
fn note_reference(base_dir: &str, reference: &String, reads: &mut Vec<TextureRequest>)
    requires
        paths_resolved(old(reads)@, base_dir@),
    ensures
        keys_of(final(reads)@) == noted(keys_of(old(reads)@), reference@),
        paths_resolved(final(reads)@, base_dir@),
{
    if reference.as_str().is_empty() {
        return ;
    }
    let ghost before = reads@;
    let n: usize = reads.len();
    let mut k: usize = 0;
    while k < n
        invariant
            reads@ == before,
            paths_resolved(before, base_dir@),
            n == before.len(),
            k <= n,
            forall|j: int| 0 <= j < k ==> (#[trigger] before[j]).key@ != reference@,
        decreases n - k,
    {
        if reads[k].key == *reference {
            assert(keys_of(before)[k as int] == reference@);
            return ;
        }
        k += 1;
    }
    assert(!keys_of(before).contains(reference@)) by {
        if keys_of(before).contains(reference@) {
            let j = choose|j: int| 0 <= j < keys_of(before).len() && keys_of(before)[j] == reference@;
            assert(before[j].key@ == reference@);
        }
    }
    reads.push(
        TextureRequest {
            key: reference.clone(),
            path: resolve_path(base_dir, reference.as_str()),
        },
    );
    assert(keys_of(reads@) =~= keys_of(before).push(reference@));
    assert forall|j: int| 0 <= j < reads@.len() implies (#[trigger] reads@[j]).path@
        == resolved_path(base_dir@, reads@[j].key@) by {
        if j < before.len() {
            assert(reads@[j] == before[j]);
        }
    }
}

/// Lists what is to be read from disk for a whole material list: every
/// non-empty texture reference of every record, mapped to a slot or not,
/// once, in the order of first occurrence. No file is planned twice, however
/// many materials refer to it.
pub fn plan_reads<S>(base_dir: &str, records: &Vec<MaterialRecord<S>>) -> (reads: Vec<
    TextureRequest,
>)
    ensures
        keys_of(reads@) == first_occurrences(all_references(records@)),
        paths_resolved(reads@, base_dir@),
{
    let mut reads: Vec<TextureRequest> = Vec::new();
    let n: usize = records.len();
    let mut k: usize = 0;
    assert(keys_of(reads@) =~= first_occurrences(all_references(records@.take(0))));
    while k < n
        invariant
            n == records@.len(),
            k <= n,
            keys_of(reads@) == first_occurrences(all_references(records@.take(k as int))),
            paths_resolved(reads@, base_dir@),
        decreases n - k,
    {
        let record = &records[k];
        proof {
            let done = all_references(records@.take(k as int));
            let r = references_of(*record);
            assert(records@.take(k + 1).drop_last() =~= records@.take(k as int));
            assert(records@.take(k + 1).last() == *record);
            lemma_first_occurrences_step(done, r[0]);
            lemma_first_occurrences_step(done.push(r[0]), r[1]);
            lemma_first_occurrences_step(done.push(r[0]).push(r[1]), r[2]);
            lemma_first_occurrences_step(done.push(r[0]).push(r[1]).push(r[2]), r[3]);
            lemma_first_occurrences_step(done.push(r[0]).push(r[1]).push(r[2]).push(r[3]), r[4]);
            lemma_first_occurrences_step(
                done.push(r[0]).push(r[1]).push(r[2]).push(r[3]).push(r[4]),
                r[5],
            );
            assert(done + r =~= done.push(r[0]).push(r[1]).push(r[2]).push(r[3]).push(r[4]).push(
                r[5],
            ));
        }
        note_reference(base_dir, &record.diffuse_texture, &mut reads);
        note_reference(base_dir, &record.ambient_texture, &mut reads);
        note_reference(base_dir, &record.normal_texture, &mut reads);
        note_reference(base_dir, &record.specular_texture, &mut reads);
        note_reference(base_dir, &record.dissolve_texture, &mut reads);
        note_reference(base_dir, &record.shininess_texture, &mut reads);
        k += 1;
    }
    assert(records@.take(n as int) =~= records@);
    reads
}

proof fn lemma_first_occurrences_step(references: Seq<Seq<char>>, next: Seq<char>)
    ensures
        first_occurrences(references.push(next)) == noted(first_occurrences(references), next),
{
    assert(references.push(next).drop_last() =~= references);
}

/// Derives the physically-based material of one record.
///
/// The albedo is the diffuse colour with the dissolve value as opacity, the
/// roughness is the shininess as it stands, and the lighting model is always
/// [`LightingModel::Blinn`]. `metallic` is the mean of the three specular
/// components, limited to the range from 0 to 1, which the caller computes
/// in its own scalar arithmetic. Each texture slot is settled by
/// [`resolve`] from its reference and from `outcomes`.
pub fn synthesize<S: Copy, X>(
    record: MaterialRecord<S>,
    metallic: S,
    outcomes: TextureOutcomes<X>,
) -> (material: PbrMaterial<S, X>)
    ensures
        material.name == record.name,
        material.albedo == (Rgba {
            r: record.diffuse.r,
            g: record.diffuse.g,
            b: record.diffuse.b,
            a: record.dissolve,
        }),
        material.albedo.a == record.dissolve,
        material.metallic == metallic,
        material.roughness == record.shininess,
        material.albedo_texture == resolved_texture(record.diffuse_texture@, outcomes.albedo),
        material.metallic_roughness_texture == resolved_texture(
            record.specular_texture@,
            outcomes.metallic_roughness,
        ),
        material.normal_texture == resolved_texture(record.normal_texture@, outcomes.normal),
        material.lighting_model == LightingModel::Blinn,
{
    let albedo_texture = resolve(record.diffuse_texture.as_str(), outcomes.albedo);
    let metallic_roughness_texture = resolve(
        record.specular_texture.as_str(),
        outcomes.metallic_roughness,
    );
    let normal_texture = resolve(record.normal_texture.as_str(), outcomes.normal);
    PbrMaterial {
        name: record.name,
        albedo: Rgba {
            r: record.diffuse.r,
            g: record.diffuse.g,
            b: record.diffuse.b,
            a: record.dissolve,
        },
        albedo_texture,
        metallic,
        roughness: record.shininess,
        metallic_roughness_texture,
        normal_texture,
        lighting_model: LightingModel::Blinn,
    }
}

} // verus!

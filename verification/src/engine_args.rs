//! Command-line arguments shared by the stable-diffusion.cpp adapters:
//! model files, LoRA resolution, prompts and the printable command line.

use vstd::prelude::*;
use crate::float_text::{f32_text3, push_f32_text3};
use crate::models::{LoraProfile, LoraSelection, LoraSelectionView, ModelProfile, strings_view};
use crate::text::{
    append, chars_of, decimal, eq_ignore_ascii_case, eq_ignore_ascii_case_spec, is_blank,
    is_blank_spec, owned, push_char, push_decimal, str_equal, trim, trim_spec,
};

verus! {

// ---------------------------------------------------------------------
// Model files

/// `[flag, path]` when `path` is set, nothing otherwise.
pub open spec fn flag_if_set(flag: Seq<char>, path: Seq<char>) -> Seq<Seq<char>> {
    if is_blank_spec(path) {
        seq![]
    } else {
        seq![flag, path]
    }
}

/// The arguments that name the model files of `m`, in the order
/// `-m`, `--diffusion-model`, `--vae`, `--clip_l`, `--t5xxl`, `--llm`.
pub open spec fn model_args_spec(m: ModelProfile) -> Seq<Seq<char>> {
    flag_if_set("-m"@, m.model_path@) + flag_if_set("--diffusion-model"@, m.diffusion_model_path@)
        + flag_if_set("--vae"@, m.vae_path@) + flag_if_set("--clip_l"@, m.clip_l_path@)
        + flag_if_set("--t5xxl"@, m.t5xxl_path@) + flag_if_set("--llm"@, m.llm_path@)
}

fn push_flag_if_set(args: &mut Vec<String>, flag: &str, path: &String)
    ensures
        strings_view(final(args)@) == strings_view(old(args)@) + flag_if_set(flag@, path@),
{
    if !is_blank(path.as_str()) {
        let ghost before = strings_view(args@);
        args.push(owned(flag));
        args.push(path.clone());
        assert(strings_view(args@) =~= before + seq![flag@, path@]);
    } else {
        assert(strings_view(old(args)@) + Seq::<Seq<char>>::empty() =~= strings_view(old(args)@));
    }
}

/// The arguments that name the model files of `model`; blank paths are
/// left out.
pub fn build_model_args(model: &ModelProfile) -> (args: Vec<String>)
    ensures
        strings_view(args@) == model_args_spec(*model),
{
    let mut args: Vec<String> = Vec::new();
    assert(strings_view(args@) =~= Seq::<Seq<char>>::empty());
    push_flag_if_set(&mut args, "-m", &model.model_path);
    push_flag_if_set(&mut args, "--diffusion-model", &model.diffusion_model_path);
    push_flag_if_set(&mut args, "--vae", &model.vae_path);
    push_flag_if_set(&mut args, "--clip_l", &model.clip_l_path);
    push_flag_if_set(&mut args, "--t5xxl", &model.t5xxl_path);
    push_flag_if_set(&mut args, "--llm", &model.llm_path);
    assert(Seq::<Seq<char>>::empty() + flag_if_set("-m"@, model.model_path@) =~= flag_if_set(
        "-m"@,
        model.model_path@,
    ));
    args
}

/// The labels of the six model files, in the order they are checked.
pub open spec fn model_file_label(k: int) -> Seq<char> {
    if k == 0 {
        "model"@
    } else if k == 1 {
        "diffusion model"@
    } else if k == 2 {
        "VAE"@
    } else if k == 3 {
        "CLIP-L"@
    } else if k == 4 {
        "T5XXL"@
    } else {
        "LLM text encoder"@
    }
}

/// The six model file paths of `m`, in the order they are checked.
pub open spec fn model_file_path(m: ModelProfile, k: int) -> Seq<char> {
    if k == 0 {
        m.model_path@
    } else if k == 1 {
        m.diffusion_model_path@
    } else if k == 2 {
        m.vae_path@
    } else if k == 3 {
        m.clip_l_path@
    } else if k == 4 {
        m.t5xxl_path@
    } else {
        m.llm_path@
    }
}

/// Whether model file `k` is set but not an existing file.
pub open spec fn model_file_missing(m: ModelProfile, existing: Seq<bool>, k: int) -> bool {
    !is_blank_spec(model_file_path(m, k)) && !existing[k]
}

/// Why the model files of `m` cannot be used, if they cannot; `existing[k]`
/// tells whether model file `k` is an existing file.
pub open spec fn model_paths_error(m: ModelProfile, existing: Seq<bool>) -> Option<Seq<char>> {
    if is_blank_spec(m.model_path@) && is_blank_spec(m.diffusion_model_path@) {
        Some("Configure either a complete model path or a diffusion model path."@)
    } else if exists|k: int| 0 <= k < 6 && #[trigger] model_file_missing(m, existing, k) {
        let k = choose|k: int|
            0 <= k < 6 && #[trigger] model_file_missing(m, existing, k) && forall|j: int|
                0 <= j < k ==> !model_file_missing(m, existing, j);
        Some("The configured "@ + model_file_label(k) + " file does not exist: "@ + model_file_path(m, k))
    } else {
        None
    }
}

fn label_of(k: usize) -> (label: &'static str)
    requires
        k < 6,
    ensures
        label@ == model_file_label(k as int),
{
    if k == 0 {
        "model"
    } else if k == 1 {
        "diffusion model"
    } else if k == 2 {
        "VAE"
    } else if k == 3 {
        "CLIP-L"
    } else if k == 4 {
        "T5XXL"
    } else {
        "LLM text encoder"
    }
}

fn path_of(m: &ModelProfile, k: usize) -> (path: &String)
    requires
        k < 6,
    ensures
        path@ == model_file_path(*m, k as int),
{
    if k == 0 {
        &m.model_path
    } else if k == 1 {
        &m.diffusion_model_path
    } else if k == 2 {
        &m.vae_path
    } else if k == 3 {
        &m.clip_l_path
    } else if k == 4 {
        &m.t5xxl_path
    } else {
        &m.llm_path
    }
}

/// Checks that `model` names a complete model or a diffusion model, and
/// that every path it sets is an existing file.  `existing` holds, in the
/// order model, diffusion model, VAE, CLIP-L, T5XXL, LLM text encoder,
/// whether each configured path is an existing file.
pub fn validate_model_paths(model: &ModelProfile, existing: &Vec<bool>) -> (r: Result<(), String>)
    requires
        existing.len() == 6,
    ensures
        r is Ok <==> model_paths_error(*model, existing@) is None,
        r is Err ==> Some(r->Err_0@) == model_paths_error(*model, existing@),
{
    if is_blank(model.model_path.as_str()) && is_blank(model.diffusion_model_path.as_str()) {
        return Err(owned("Configure either a complete model path or a diffusion model path."));
    }
    let mut k: usize = 0;
    while k < 6
        invariant
            existing.len() == 6,
            !(is_blank_spec(model.model_path@) && is_blank_spec(model.diffusion_model_path@)),
            k <= 6,
            forall|j: int| 0 <= j < k ==> !#[trigger] model_file_missing(*model, existing@, j),
        decreases 6 - k,
    {
        let path = path_of(model, k);
        if !is_blank(path.as_str()) && !existing[k] {
            assert(model_file_missing(*model, existing@, k as int));
            let mut message = owned("The configured ");
            append(&mut message, label_of(k));
            append(&mut message, " file does not exist: ");
            append(&mut message, path.as_str());
            proof {
                assert(0 <= k < 6 && model_file_missing(*model, existing@, k as int) && forall|j: int|
                    0 <= j < k ==> !model_file_missing(*model, existing@, j));
                let c = choose|c: int|
                    0 <= c < 6 && #[trigger] model_file_missing(*model, existing@, c) && forall|j: int|
                        0 <= j < c ==> !model_file_missing(*model, existing@, j);
                if c < k {
                } else if c > k {
                    assert(!model_file_missing(*model, existing@, k as int));
                }
                assert(c == k);
                assert(message@ =~= "The configured "@ + model_file_label(k as int) + " file does not exist: "@
                    + model_file_path(*model, k as int));
                assert(!(is_blank_spec(model.model_path@) && is_blank_spec(model.diffusion_model_path@)));
                assert(model_paths_error(*model, existing@) == Some(message@));
            }
            return Err(message);
        }
        k = k + 1;
    }
    Ok(())
}

// ---------------------------------------------------------------------
// LoRAs

/// The position of the first profile with id `id`, or the number of
/// profiles when there is none.
pub open spec fn profile_position(profiles: Seq<LoraProfile>, id: Seq<char>) -> nat
    decreases profiles.len(),
{
    if profiles.len() == 0 {
        0
    } else if profiles[0].id@ == id {
        0
    } else {
        1 + profile_position(profiles.drop_first(), id)
    }
}

proof fn lemma_profile_position(profiles: Seq<LoraProfile>, id: Seq<char>)
    ensures
        profile_position(profiles, id) <= profiles.len(),
        profile_position(profiles, id) < profiles.len() ==> profiles[profile_position(
            profiles,
            id,
        ) as int].id@ == id,
        forall|k: int| 0 <= k < profile_position(profiles, id) ==> profiles[k].id@ != id,
    decreases profiles.len(),
{
    if profiles.len() > 0 && profiles[0].id@ != id {
        lemma_profile_position(profiles.drop_first(), id);
        assert forall|k: int| 0 <= k < profile_position(profiles, id) implies profiles[k].id@ != id by {
            if k > 0 {
                assert(profiles[k] == profiles.drop_first()[k - 1]);
            }
        }
    }
}

/// Whether a LoRA marked for `families` may be used with a model of
/// family `family`: it may when it lists no family or lists `family`,
/// compared without ASCII case.
pub open spec fn lora_compatible(families: Seq<Seq<char>>, family: Seq<char>) -> bool {
    families.len() == 0 || exists|i: int| 0 <= i < families.len() && eq_ignore_ascii_case_spec(
        #[trigger] families[i],
        family,
    )
}

/// Which profile LoRA `id` resolves to for a model of family `family`, or
/// why it cannot be used.
pub open spec fn lora_resolution(profiles: Seq<LoraProfile>, id: Seq<char>, family: Seq<char>) -> Result<int, Seq<char>> {
    let p = profile_position(profiles, id) as int;
    if p >= profiles.len() {
        Err("LoRA profile '"@ + id + "' was not found."@)
    } else if !lora_compatible(strings_view(profiles[p].compatible_families@), family) {
        Err("LoRA '"@ + profiles[p].label@ + "' is not marked compatible with model family '"@ + family + "'."@)
    } else {
        Ok(p)
    }
}

/// The profile of LoRA `id`, checked against the family of `model`: the
/// first profile with that id, if its compatible families are empty or
/// include the model's family (without regard to ASCII case).
pub fn lora_profile<'a>(id: &str, profiles: &'a Vec<LoraProfile>, model: &ModelProfile) -> (r: Result<&'a LoraProfile, String>)
    ensures
        match lora_resolution(profiles@, id@, model.family@) {
            Ok(p) => r is Ok && r->Ok_0 == profiles@[p],
            Err(e) => r is Err && r->Err_0@ == e,
        },
{
    proof {
        lemma_profile_position(profiles@, id@);
    }
    let mut p: usize = 0;
    while p < profiles.len() && !str_equal(profiles[p].id.as_str(), id)
        invariant
            p <= profiles.len(),
            forall|k: int| 0 <= k < p ==> profiles@[k].id@ != id@,
        decreases profiles.len() - p,
    {
        p = p + 1;
    }
    proof {
        lemma_profile_position(profiles@, id@);
        let q = profile_position(profiles@, id@) as int;
        if q < p {
        } else if q > p && p < profiles.len() {
            assert(profiles@[p as int].id@ != id@);
        }
    }
    if p == profiles.len() {
        let mut message = owned("LoRA profile '");
        append(&mut message, id);
        append(&mut message, "' was not found.");
        return Err(message);
    }
    let profile = &profiles[p];
    let families = &profile.compatible_families;
    if families.len() > 0 {
        let mut found = false;
        let mut i: usize = 0;
        while i < families.len()
            invariant
                i <= families.len(),
                found == exists|k: int| 0 <= k < i && eq_ignore_ascii_case_spec(
                    #[trigger] families@[k]@,
                    model.family@,
                ),
            decreases families.len() - i,
        {
            if eq_ignore_ascii_case(families[i].as_str(), model.family.as_str()) {
                found = true;
            }
            i = i + 1;
        }
        proof {
            let fv = strings_view(families@);
            assert(found == exists|k: int| 0 <= k < fv.len() && eq_ignore_ascii_case_spec(
                #[trigger] fv[k],
                model.family@,
            )) by {
                if found {
                    let k = choose|k: int| 0 <= k < families.len() && eq_ignore_ascii_case_spec(
                        #[trigger] families@[k]@,
                        model.family@,
                    );
                    assert(fv[k] == families@[k]@);
                }
                if exists|k: int| 0 <= k < fv.len() && eq_ignore_ascii_case_spec(
                    #[trigger] fv[k],
                    model.family@,
                ) {
                    let k = choose|k: int| 0 <= k < fv.len() && eq_ignore_ascii_case_spec(
                        #[trigger] fv[k],
                        model.family@,
                    );
                    assert(fv[k] == families@[k]@);
                }
            }
        }
        if !found {
            let mut message = owned("LoRA '");
            append(&mut message, profile.label.as_str());
            append(&mut message, "' is not marked compatible with model family '");
            append(&mut message, model.family.as_str());
            append(&mut message, "'.");
            return Err(message);
        }
    }
    Ok(profile)
}

/// ` <trigger>` for a LoRA with a non-blank trigger word, nothing otherwise.
pub open spec fn trigger_suffix(trigger: Seq<char>) -> Seq<char> {
    if is_blank_spec(trigger) {
        seq![]
    } else {
        " "@ + trim_spec(trigger)
    }
}

fn push_trigger(prompt: &mut String, trigger: &String)
    ensures
        final(prompt)@ == old(prompt)@ + trigger_suffix(trigger@),
{
    if !is_blank(trigger.as_str()) {
        append(prompt, " ");
        let t = trim(trigger.as_str());
        append(prompt, t.as_str());
    } else {
        assert(old(prompt)@ + Seq::<char>::empty() =~= old(prompt)@);
    }
}

/// The prompt sent to the image server: the trimmed prompt followed by the
/// trigger word of every selected LoRA, or the first LoRA problem.
pub open spec fn trigger_prompt_from(
    prompt: Seq<char>,
    selections: Seq<LoraSelectionView>,
    profiles: Seq<LoraProfile>,
    family: Seq<char>,
) -> Result<Seq<char>, Seq<char>>
    decreases selections.len(),
{
    if selections.len() == 0 {
        Ok(prompt)
    } else {
        match lora_resolution(profiles, selections[0].id, family) {
            Err(e) => Err(e),
            Ok(p) => trigger_prompt_from(
                prompt + trigger_suffix(profiles[p].trigger@),
                selections.drop_first(),
                profiles,
                family,
            ),
        }
    }
}

/// The views of a list of LoRA selections.
pub open spec fn selections_view(s: Seq<LoraSelection>) -> Seq<LoraSelectionView> {
    s.map_values(|l: LoraSelection| l@)
}

/// The request prompt, trimmed, followed by the trigger word of each
/// selected LoRA; fails on the first LoRA that is unknown or incompatible
/// with `model`.
pub fn prompt_with_lora_triggers(
    prompt: &str,
    selections: &Vec<LoraSelection>,
    profiles: &Vec<LoraProfile>,
    model: &ModelProfile,
) -> (r: Result<String, String>)
    ensures
        match trigger_prompt_from(trim_spec(prompt@), selections_view(selections@), profiles@, model.family@) {
            Ok(p) => r is Ok && r->Ok_0@ == p,
            Err(e) => r is Err && r->Err_0@ == e,
        },
{
    let mut out = trim(prompt);
    let ghost sels = selections_view(selections@);
    let mut i: usize = 0;
    assert(sels.skip(0) == sels);
    while i < selections.len()
        invariant
            i <= selections.len(),
            sels == selections_view(selections@),
            trigger_prompt_from(trim_spec(prompt@), sels, profiles@, model.family@) == trigger_prompt_from(
                out@,
                sels.skip(i as int),
                profiles@,
                model.family@,
            ),
        decreases selections.len() - i,
    {
        let ghost rest = sels.skip(i as int);
        assert(rest[0] == selections@[i as int]@);
        assert(rest.drop_first() == sels.skip(i + 1));
        let profile = lora_profile(selections[i].id.as_str(), profiles, model);
        match profile {
            Err(e) => {
                return Err(e);
            },
            Ok(p) => {
                push_trigger(&mut out, &p.trigger);
            },
        }
        i = i + 1;
    }
    assert(sels.skip(selections.len() as int) =~= Seq::<LoraSelectionView>::empty());
    Ok(out)
}

/// A LoRA entry of an image-server request: the LoRA file and its strength,
/// as the bit pattern of the `f32` multiplier.
#[derive(Debug)]
pub struct LoraPayloadEntry {
    pub path: String,
    pub strength_bits: u32,
}

/// The LoRA entries of an image-server request, or the first LoRA problem.
pub open spec fn lora_entries_from(
    selections: Seq<LoraSelectionView>,
    profiles: Seq<LoraProfile>,
    family: Seq<char>,
) -> Result<Seq<(Seq<char>, u32)>, Seq<char>>
    decreases selections.len(),
{
    if selections.len() == 0 {
        Ok(seq![])
    } else {
        match lora_resolution(profiles, selections[0].id, family) {
            Err(e) => Err(e),
            Ok(p) => match lora_entries_from(selections.drop_first(), profiles, family) {
                Err(e) => Err(e),
                Ok(rest) => Ok(seq![(profiles[p].path@, selections[0].strength_bits)] + rest),
            },
        }
    }
}

/// The views of LoRA entries.
pub open spec fn entries_view(v: Seq<LoraPayloadEntry>) -> Seq<(Seq<char>, u32)> {
    v.map_values(|e: LoraPayloadEntry| (e.path@, e.strength_bits))
}

proof fn lemma_entries_from_append(
    sels: Seq<LoraSelectionView>,
    i: int,
    profiles: Seq<LoraProfile>,
    family: Seq<char>,
    done: Seq<(Seq<char>, u32)>,
)
    requires
        0 <= i < sels.len(),
        lora_entries_from(sels, profiles, family) == (match lora_entries_from(sels.skip(i), profiles, family) {
            Ok(rest) => Ok(done + rest),
            Err(e) => Err(e),
        }),
        lora_resolution(profiles, sels[i].id, family) is Ok,
    ensures
        ({
            let p = lora_resolution(profiles, sels[i].id, family)->Ok_0;
            lora_entries_from(sels, profiles, family) == (match lora_entries_from(sels.skip(i + 1), profiles, family) {
                Ok(rest) => Ok(done.push((profiles[p].path@, sels[i].strength_bits)) + rest),
                Err(e) => Err(e),
            })
        }),
{
    let p = lora_resolution(profiles, sels[i].id, family)->Ok_0;
    let rest = sels.skip(i);
    assert(rest[0] == sels[i]);
    assert(rest.drop_first() == sels.skip(i + 1));
    match lora_entries_from(sels.skip(i + 1), profiles, family) {
        Ok(r2) => {
            assert(done + (seq![(profiles[p].path@, sels[i].strength_bits)] + r2) =~= done.push(
                (profiles[p].path@, sels[i].strength_bits),
            ) + r2);
        },
        Err(_) => {},
    }
}

/// The LoRA entries of an image-server request: for each selection, the
/// path of its profile and its strength; fails on the first LoRA that is
/// unknown or incompatible with `model`.
pub fn build_lora_payload(
    selections: &Vec<LoraSelection>,
    profiles: &Vec<LoraProfile>,
    model: &ModelProfile,
) -> (r: Result<Vec<LoraPayloadEntry>, String>)
    ensures
        match lora_entries_from(selections_view(selections@), profiles@, model.family@) {
            Ok(v) => r is Ok && entries_view(r->Ok_0@) == v,
            Err(e) => r is Err && r->Err_0@ == e,
        },
{
    let mut out: Vec<LoraPayloadEntry> = Vec::new();
    let ghost sels = selections_view(selections@);
    let mut i: usize = 0;
    assert(sels.skip(0) == sels);
    assert(entries_view(out@) =~= Seq::<(Seq<char>, u32)>::empty());
    while i < selections.len()
        invariant
            i <= selections.len(),
            sels == selections_view(selections@),
            lora_entries_from(sels, profiles@, model.family@) == (match lora_entries_from(
                sels.skip(i as int),
                profiles@,
                model.family@,
            ) {
                Ok(rest) => Ok(entries_view(out@) + rest),
                Err(e) => Err(e),
            }),
        decreases selections.len() - i,
    {
        let ghost rest = sels.skip(i as int);
        assert(rest[0] == selections@[i as int]@);
        let profile = lora_profile(selections[i].id.as_str(), profiles, model);
        match profile {
            Err(e) => {
                return Err(e);
            },
            Ok(p) => {
                proof {
                    lemma_entries_from_append(sels, i as int, profiles@, model.family@, entries_view(out@));
                }
                let ghost before = entries_view(out@);
                out.push(LoraPayloadEntry { path: p.path.clone(), strength_bits: selections[i].strength_bits });
                assert(entries_view(out@) =~= before.push((p.path@, selections@[i as int].strength_bits)));
            },
        }
        i = i + 1;
    }
    assert(sels.skip(selections.len() as int) =~= Seq::<LoraSelectionView>::empty());
    assert(entries_view(out@) + Seq::<(Seq<char>, u32)>::empty() =~= entries_view(out@));
    Ok(out)
}

// ---------------------------------------------------------------------
// LoRA prompt tags

/// The file stem of `path` as `std::path::Path::file_stem` computes it,
/// when there is one.
pub uninterp spec fn path_file_stem(path: Seq<char>) -> Option<Seq<char>>;

/// `Path::new(path).file_stem()` as text.  The stem is the final component
/// without its extension; the exact rules are std's and are named, not
/// stated.
#[verifier::external_body]
fn file_stem(path: &str) -> (stem: Option<String>)
    ensures
        match path_file_stem(path@) {
            Some(s) => stem is Some && stem->0@ == s,
            None => stem is None,
        },
{
    std::path::Path::new(path).file_stem().and_then(|value| value.to_str()).map(|value| value.to_string())
}

/// ` <lora:stem:strength>` followed by the trigger suffix, for one LoRA.
pub open spec fn lora_tag(stem: Seq<char>, strength_bits: u32, trigger: Seq<char>) -> Seq<char> {
    " <lora:"@ + stem + ":"@ + f32_text3(strength_bits) + ">"@ + trigger_suffix(trigger)
}

/// The prompt given to `sd-cli`: the trimmed prompt followed, for every
/// selected LoRA, by its `<lora:...>` tag and trigger word, or the first
/// LoRA problem.
pub open spec fn tagged_prompt_from(
    prompt: Seq<char>,
    selections: Seq<LoraSelectionView>,
    profiles: Seq<LoraProfile>,
    family: Seq<char>,
) -> Result<Seq<char>, Seq<char>>
    decreases selections.len(),
{
    if selections.len() == 0 {
        Ok(prompt)
    } else {
        match lora_resolution(profiles, selections[0].id, family) {
            Err(e) => Err(e),
            Ok(p) => match path_file_stem(profiles[p].path@) {
                None => Err("LoRA path is invalid: "@ + profiles[p].path@),
                Some(stem) => tagged_prompt_from(
                    prompt + lora_tag(stem, selections[0].strength_bits, profiles[p].trigger@),
                    selections.drop_first(),
                    profiles,
                    family,
                ),
            },
        }
    }
}

/// The `sd-cli` prompt: the trimmed prompt followed by a `<lora:stem:x.xxx>`
/// tag and the trigger word of every selected LoRA; fails on the first
/// LoRA that is unknown, incompatible with `model`, or whose path has no
/// file stem.
pub fn prompt_with_loras(
    prompt: &str,
    selections: &Vec<LoraSelection>,
    profiles: &Vec<LoraProfile>,
    model: &ModelProfile,
) -> (r: Result<String, String>)
    ensures
        match tagged_prompt_from(trim_spec(prompt@), selections_view(selections@), profiles@, model.family@) {
            Ok(p) => r is Ok && r->Ok_0@ == p,
            Err(e) => r is Err && r->Err_0@ == e,
        },
{
    let mut out = trim(prompt);
    let ghost sels = selections_view(selections@);
    let mut i: usize = 0;
    assert(sels.skip(0) == sels);
    while i < selections.len()
        invariant
            i <= selections.len(),
            sels == selections_view(selections@),
            tagged_prompt_from(trim_spec(prompt@), sels, profiles@, model.family@) == tagged_prompt_from(
                out@,
                sels.skip(i as int),
                profiles@,
                model.family@,
            ),
        decreases selections.len() - i,
    {
        let ghost rest = sels.skip(i as int);
        assert(rest[0] == selections@[i as int]@);
        assert(rest.drop_first() == sels.skip(i + 1));
        let profile = lora_profile(selections[i].id.as_str(), profiles, model);
        match profile {
            Err(e) => {
                return Err(e);
            },
            Ok(p) => {
                match file_stem(p.path.as_str()) {
                    None => {
                        let mut message = owned("LoRA path is invalid: ");
                        append(&mut message, p.path.as_str());
                        return Err(message);
                    },
                    Some(stem) => {
                        let ghost before = out@;
                        append(&mut out, " <lora:");
                        append(&mut out, stem.as_str());
                        append(&mut out, ":");
                        push_f32_text3(&mut out, selections[i].strength_bits);
                        append(&mut out, ">");
                        push_trigger(&mut out, &p.trigger);
                        assert(out@ =~= before + lora_tag(stem@, selections@[i as int].strength_bits, p.trigger@));
                    },
                }
            },
        }
        i = i + 1;
    }
    assert(sels.skip(selections.len() as int) =~= Seq::<LoraSelectionView>::empty());
    Ok(out)
}

// ---------------------------------------------------------------------
// Printable command line

/// `a` with every `"` preceded by a backslash.
pub open spec fn escape_quotes(a: Seq<char>) -> Seq<char>
    decreases a.len(),
{
    if a.len() == 0 {
        seq![]
    } else {
        escape_quotes(a.drop_last()) + (if a.last() == '"' {
            seq!['\\', '"']
        } else {
            seq![a.last()]
        })
    }
}

/// How one argument is shown: in double quotes, with inner quotes escaped,
/// when it contains a space; as it is otherwise.
pub open spec fn shown_arg(a: Seq<char>) -> Seq<char> {
    if a.contains(' ') {
        seq!['"'] + escape_quotes(a) + seq!['"']
    } else {
        a
    }
}

/// The shown arguments joined by single spaces.
pub open spec fn shell_preview_spec(args: Seq<Seq<char>>) -> Seq<char>
    decreases args.len(),
{
    if args.len() == 0 {
        seq![]
    } else if args.len() == 1 {
        shown_arg(args[0])
    } else {
        shell_preview_spec(args.drop_last()) + seq![' '] + shown_arg(args.last())
    }
}

fn shown(arg: &String) -> (s: String)
    ensures
        s@ == shown_arg(arg@),
{
    let chars = chars_of(arg.as_str());
    let mut has_space = false;
    let mut i: usize = 0;
    while i < chars.len()
        invariant
            chars@ == arg@,
            i <= chars.len(),
            has_space == exists|k: int| 0 <= k < i && chars@[k] == ' ',
        decreases chars.len() - i,
    {
        if chars[i] == ' ' {
            has_space = true;
        }
        i = i + 1;
    }
    assert(has_space == arg@.contains(' '));
    if !has_space {
        return arg.clone();
    }
    let mut s = String::new();
    push_char(&mut s, '"');
    let mut k: usize = 0;
    while k < chars.len()
        invariant
            chars@ == arg@,
            k <= chars.len(),
            s@ == seq!['"'] + escape_quotes(chars@.take(k as int)),
        decreases chars.len() - k,
    {
        let c = chars[k];
        assert(chars@.take(k + 1).drop_last() == chars@.take(k as int));
        if c == '"' {
            push_char(&mut s, '\\');
            push_char(&mut s, '"');
        } else {
            push_char(&mut s, c);
        }
        assert(s@ =~= seq!['"'] + escape_quotes(chars@.take(k + 1)));
        k = k + 1;
    }
    push_char(&mut s, '"');
    assert(chars@.take(chars.len() as int) == chars@);
    assert(s@ =~= seq!['"'] + escape_quotes(arg@) + seq!['"']);
    s
}

/// The arguments as they are shown in a job's log: joined by spaces, an
/// argument that contains a space in double quotes with its quotes escaped.
pub fn shell_preview(args: &Vec<String>) -> (preview: String)
    ensures
        preview@ == shell_preview_spec(strings_view(args@)),
{
    let ghost v = strings_view(args@);
    let mut out = String::new();
    let mut i: usize = 0;
    while i < args.len()
        invariant
            i <= args.len(),
            v == strings_view(args@),
            out@ == shell_preview_spec(v.take(i as int)),
        decreases args.len() - i,
    {
        let a = shown(&args[i]);
        assert(v.take(i + 1).drop_last() == v.take(i as int));
        assert(v.take(i + 1).last() == args@[i as int]@);
        if i > 0 {
            push_char(&mut out, ' ');
        } else {
            assert(v.take(1).len() == 1);
            assert(out@ == Seq::<char>::empty());
        }
        append(&mut out, a.as_str());
        if i == 0 {
            assert(out@ =~= shown_arg(v.take(1)[0]));
        }
        i = i + 1;
    }
    assert(v.take(args.len() as int) == v);
    out
}

} // verus!

//! The dual-Kawase UI blur pass schedule.
//!
//! The captured frame color is first downscaled into mip 0 of a dedicated
//! blur texture with the mipmap-generation helper; then each downscale
//! pass samples mip `L` and writes mip `L + 1`, and each upscale pass
//! samples mip `L + 1` and writes mip `L`, in reverse order. Every pass
//! draws one full-screen triangle through a fresh bind group of the
//! source mip view and the shared linear sampler, storing over the
//! destination without clearing it. Mip 0 ends up holding the blurred
//! background the UI composites over.

use vstd::prelude::*;
use crate::gfx::GfxContext;
use crate::pipeline::PipelineKey;
use crate::pipeline::UIBlurPipeline;
use crate::pipeline::cache_has;
use crate::pipeline::key_index;

verus! {

/// How many downscale passes the blur chain runs (the upscale phase runs
/// the same number in reverse).
pub const DOWNSCALE_PASSES: u32 = 2;

/// One recorded command of the blur encoder.
#[derive(Clone, Copy, PartialEq, Eq, Structural, Debug)]
pub enum BlurCmd {
    /// The mipmap-generation helper: a bilinear box filter from the
    /// captured frame view into one mip of the blur texture.
    MipmapGen { src_frame: u64, dst_mip: u32 },
    /// One full-screen blur pass: the resolved pipeline, a fresh bind
    /// group over the source mip and the shared sampler, and a
    /// load-preserving write of the destination mip.
    Pass { pipeline: usize, bind_group: u64, src_mip: u32, dst_mip: u32, load_preserve: bool },
}

/// The frame's command encoders; the blur records into the end-of-frame
/// encoder.
pub struct Encoders {
    pub end: Vec<BlurCmd>,
}

impl Encoders {
    /// Empty encoders.
    pub fn new() -> (r: Self)
        ensures
            r.end@.len() == 0,
    {
        Encoders { end: Vec::new() }
    }
}

/// The (source mip, destination mip) pairs of the downscale phase:
/// `(0,1), (1,2), ... (n-1,n)`.
pub open spec fn down_sched(n: int) -> Seq<(u32, u32)>
    decreases n,
{
    if n <= 0 {
        Seq::empty()
    } else {
        down_sched(n - 1) + seq![((n - 1) as u32, n as u32)]
    }
}

/// The (source mip, destination mip) pairs of the upscale phase:
/// `(n,n-1), (n-1,n-2), ... (1,0)`.
pub open spec fn up_sched(n: int) -> Seq<(u32, u32)>
    decreases n,
{
    if n <= 0 {
        Seq::empty()
    } else {
        seq![(n as u32, (n - 1) as u32)] + up_sched(n - 1)
    }
}

/// The full dual-Kawase schedule with `n` levels: all downscale passes,
/// then all upscale passes.
pub open spec fn kawase_sched(n: int) -> Seq<(u32, u32)> {
    down_sched(n) + up_sched(n)
}

/// How many passes of `s` write mip `l`.
pub open spec fn writes_to(s: Seq<(u32, u32)>, l: u32) -> int
    decreases s.len(),
{
    if s.len() == 0 {
        0
    } else {
        (if s.last().1 == l {
            1int
        } else {
            0int
        }) + writes_to(s.drop_last(), l)
    }
}

/// How many passes of `s` read mip `l`.
pub open spec fn reads_from(s: Seq<(u32, u32)>, l: u32) -> int
    decreases s.len(),
{
    if s.len() == 0 {
        0
    } else {
        (if s.last().0 == l {
            1int
        } else {
            0int
        }) + reads_from(s.drop_last(), l)
    }
}

/// Counts add over concatenation.
pub proof fn lemma_counts_concat(a: Seq<(u32, u32)>, b: Seq<(u32, u32)>, l: u32)
    ensures
        writes_to(a + b, l) == writes_to(a, l) + writes_to(b, l),
        reads_from(a + b, l) == reads_from(a, l) + reads_from(b, l),
    decreases b.len(),
{
    if b.len() == 0 {
        assert((a + b) =~= a);
    } else {
        lemma_counts_concat(a, b.drop_last(), l);
        assert((a + b).drop_last() =~= a + b.drop_last());
    }
}

/// Counts of a single pass.
pub proof fn lemma_counts_single(p: (u32, u32), l: u32)
    ensures
        writes_to(seq![p], l) == if p.1 == l {
            1int
        } else {
            0int
        },
        reads_from(seq![p], l) == if p.0 == l {
            1int
        } else {
            0int
        },
{
    assert(seq![p].drop_last().len() == 0);
    assert(writes_to(seq![p].drop_last(), l) == 0);
    assert(reads_from(seq![p].drop_last(), l) == 0);
}

/// In the downscale phase over `n` levels, each mip `1..=n` is written
/// exactly once, mip 0 never; each mip `0..n` is read exactly once, mip
/// `n` and anything above never.
pub proof fn lemma_down_sched_counts(n: int, l: u32)
    requires
        0 <= n <= u32::MAX,
    ensures
        writes_to(down_sched(n), l) == if 1 <= l <= n {
            1int
        } else {
            0int
        },
        reads_from(down_sched(n), l) == if l < n {
            1int
        } else {
            0int
        },
    decreases n,
{
    if n > 0 {
        lemma_down_sched_counts(n - 1, l);
        lemma_counts_concat(down_sched(n - 1), seq![((n - 1) as u32, n as u32)], l);
        lemma_counts_single(((n - 1) as u32, n as u32), l);
    }
}

/// In the upscale phase over `n` levels, each mip `0..n` is written
/// exactly once, mip `n` never; each mip `1..=n` is read exactly once.
pub proof fn lemma_up_sched_counts(n: int, l: u32)
    requires
        0 <= n <= u32::MAX,
    ensures
        writes_to(up_sched(n), l) == if l < n {
            1int
        } else {
            0int
        },
        reads_from(up_sched(n), l) == if 1 <= l <= n {
            1int
        } else {
            0int
        },
    decreases n,
{
    if n > 0 {
        lemma_up_sched_counts(n - 1, l);
        lemma_counts_concat(seq![(n as u32, (n - 1) as u32)], up_sched(n - 1), l);
        lemma_counts_single((n as u32, (n - 1) as u32), l);
    }
}

/// Law of the dual-Kawase schedule over any level count `n >= 1`: across
/// the `2n` blur passes, mip 0 is written exactly once (by the final
/// upscale pass) and read exactly once; every intermediate mip `1..n` is
/// read and written exactly twice (once per phase); the deepest mip `n`
/// is written and read exactly once; and nothing beyond mip `n` is
/// touched.
pub proof fn lemma_kawase_mip_usage(n: int, l: u32)
    requires
        1 <= n <= u32::MAX,
    ensures
        writes_to(kawase_sched(n), 0) == 1,
        reads_from(kawase_sched(n), 0) == 1,
        1 <= l < n ==> writes_to(kawase_sched(n), l) == 2 && reads_from(kawase_sched(n), l) == 2,
        writes_to(kawase_sched(n), n as u32) == 1,
        reads_from(kawase_sched(n), n as u32) == 1,
        l > n ==> writes_to(kawase_sched(n), l) == 0 && reads_from(kawase_sched(n), l) == 0,
{
    lemma_counts_concat(down_sched(n), up_sched(n), 0);
    lemma_down_sched_counts(n, 0);
    lemma_up_sched_counts(n, 0);
    lemma_counts_concat(down_sched(n), up_sched(n), l);
    lemma_down_sched_counts(n, l);
    lemma_up_sched_counts(n, l);
    lemma_counts_concat(down_sched(n), up_sched(n), n as u32);
    lemma_down_sched_counts(n, n as u32);
    lemma_up_sched_counts(n, n as u32);
}

/// What one blur pass appends: a `Pass` command with the given phase
/// pipeline resolved in `entries`, a fresh bind group, the given mip
/// pair, and a load-preserving store.
pub open spec fn pass_cmd(
    entries: Seq<crate::pipeline::CompiledPipeline>,
    variant: UIBlurPipeline,
    bind_group: u64,
    src: u32,
    dst: u32,
) -> BlurCmd {
    BlurCmd::Pass {
        pipeline: key_index(entries, PipelineKey::Blur(variant)) as usize,
        bind_group,
        src_mip: src,
        dst_mip: dst,
        load_preserve: true,
    }
}

/// Run one blur pass sampling mip `src` and writing mip `dst` with the
/// given phase pipeline: resolve the pipeline, create a fresh bind group
/// over the source view and the shared linear sampler, and draw one
/// full-screen triangle with a load-preserving store.
pub fn do_pass(gfx: &mut GfxContext, encs: &mut Encoders, pipeline: UIBlurPipeline, src: u32, dst:
    u32)
    requires
        old(gfx).wf(),
        src < old(gfx).ui_blur_mips,
        dst < old(gfx).ui_blur_mips,
        old(gfx).next_bind_group_id < u64::MAX,
    ensures
        final(gfx).wf(),
        *final(gfx) == (GfxContext {
            cache: final(gfx).cache,
            next_bind_group_id: final(gfx).next_bind_group_id,
            ..*old(gfx)
        }),
        final(gfx).next_bind_group_id == old(gfx).next_bind_group_id + 1,
        crate::draw::cache_resolved(old(gfx).cache, final(gfx).cache, PipelineKey::Blur(pipeline)),
        final(encs).end@ == old(encs).end@.push(
            pass_cmd(
                final(gfx).cache.entries@,
                pipeline,
                old(gfx).next_bind_group_id,
                src,
                dst,
            ),
        ),
    {
        let pipe = gfx.get_pipeline(PipelineKey::Blur(pipeline));
        let bg = gfx.create_bind_group();
        encs.end.push(
            BlurCmd::Pass { pipeline: pipe, bind_group: bg, src_mip: src, dst_mip: dst, load_preserve: true },
        );
    }

/// The initial downscale: one mipmap-generation run of the captured
/// frame color into mip 0 of the blur texture.
pub fn initial_downscale(gfx: &GfxContext, encs: &mut Encoders, frame: u64)
    ensures
        final(encs).end@ == old(encs).end@.push(BlurCmd::MipmapGen { src_frame: frame, dst_mip: 0 }),
{
    encs.end.push(BlurCmd::MipmapGen { src_frame: frame, dst_mip: 0 });
}

/// The mip pairs of the passes appended by `gen_ui_blur`, resolved
/// against the final cache.
pub open spec fn blur_pass_cmds(
    entries: Seq<crate::pipeline::CompiledPipeline>,
    first_bg: int,
    sched_down: Seq<(u32, u32)>,
    sched_up: Seq<(u32, u32)>,
) -> Seq<BlurCmd> {
    Seq::new(
        sched_down.len() + sched_up.len(),
        |i: int|
            if i < sched_down.len() {
                pass_cmd(
                    entries,
                    UIBlurPipeline::Downscale,
                    (first_bg + i) as u64,
                    sched_down[i].0,
                    sched_down[i].1,
                )
            } else {
                pass_cmd(
                    entries,
                    UIBlurPipeline::Upscale,
                    (first_bg + i) as u64,
                    sched_up[i - sched_down.len()].0,
                    sched_up[i - sched_down.len()].1,
                )
            },
    )
}

/// The downscale schedule has `n` entries and entry `i` is `(i, i+1)`.
pub proof fn lemma_down_sched_index(n: int, i: int)
    requires
        0 <= n <= u32::MAX,
    ensures
        down_sched(n).len() == n,
        0 <= i < n ==> down_sched(n)[i] == (i as u32, (i + 1) as u32),
    decreases n,
{
    if n > 0 {
        lemma_down_sched_index(n - 1, i);
    }
}

/// The upscale schedule has `n` entries and entry `j` is `(n-j, n-j-1)`.
pub proof fn lemma_up_sched_index(n: int, j: int)
    requires
        0 <= n <= u32::MAX,
    ensures
        up_sched(n).len() == n,
        0 <= j < n ==> up_sched(n)[j] == ((n - j) as u32, (n - j - 1) as u32),
    decreases n,
{
    if n > 0 {
        lemma_up_sched_index(n - 1, j - 1);
    }
}

/// Recorded blur passes do not change when the cache is extended, as
/// long as the phase pipelines they resolve are already present.
pub proof fn lemma_blur_cmds_stable(
    e1: Seq<crate::pipeline::CompiledPipeline>,
    e2: Seq<crate::pipeline::CompiledPipeline>,
    first_bg: int,
    sched_down: Seq<(u32, u32)>,
    sched_up: Seq<(u32, u32)>,
)
    requires
        e2.len() >= e1.len(),
        e2.take(e1.len() as int) == e1,
        sched_down.len() > 0 ==> cache_has(e1, PipelineKey::Blur(UIBlurPipeline::Downscale)),
        sched_up.len() > 0 ==> cache_has(e1, PipelineKey::Blur(UIBlurPipeline::Upscale)),
    ensures
        blur_pass_cmds(e2, first_bg, sched_down, sched_up) == blur_pass_cmds(
            e1,
            first_bg,
            sched_down,
            sched_up,
        ),
{
    if sched_down.len() > 0 {
        crate::draw::lemma_key_index_extend(
            e1,
            e2,
            PipelineKey::Blur(UIBlurPipeline::Downscale),
        );
    }
    if sched_up.len() > 0 {
        crate::draw::lemma_key_index_extend(e1, e2, PipelineKey::Blur(UIBlurPipeline::Upscale));
    }
    assert(blur_pass_cmds(e2, first_bg, sched_down, sched_up) =~= blur_pass_cmds(
        e1,
        first_bg,
        sched_down,
        sched_up,
    ));
}

/// Generate the blurred UI background from the captured frame color.
///
/// One mipmap-generation pass captures the frame into mip 0; then the
/// configured number of downscale passes walk the mip chain down, and
/// the same number of upscale passes walk it back up to mip 0. The
/// emitted passes follow [`down_sched`] and [`up_sched`] exactly, each
/// with a fresh consecutive bind group.
pub fn gen_ui_blur(gfx: &mut GfxContext, encs: &mut Encoders, frame: u64)
    requires
        old(gfx).wf(),
        old(gfx).ui_blur_mips > DOWNSCALE_PASSES,
        old(gfx).next_bind_group_id + 2 * DOWNSCALE_PASSES <= u64::MAX,
    ensures
        final(gfx).wf(),
        *final(gfx) == (GfxContext {
            cache: final(gfx).cache,
            next_bind_group_id: final(gfx).next_bind_group_id,
            ..*old(gfx)
        }),
        final(gfx).next_bind_group_id == old(gfx).next_bind_group_id + 2 * DOWNSCALE_PASSES,
        final(gfx).cache.entries@.take(old(gfx).cache.entries@.len() as int) == old(
            gfx,
        ).cache.entries@,
        cache_has(final(gfx).cache.entries@, PipelineKey::Blur(UIBlurPipeline::Downscale)),
        cache_has(final(gfx).cache.entries@, PipelineKey::Blur(UIBlurPipeline::Upscale)),
        forall|i: int|
            old(gfx).cache.entries@.len() <= i < final(gfx).cache.entries@.len() ==> (
            #[trigger] final(gfx).cache.entries@[i].key) == PipelineKey::Blur(
                UIBlurPipeline::Downscale,
            ) || final(gfx).cache.entries@[i].key == PipelineKey::Blur(UIBlurPipeline::Upscale),
        final(encs).end@ == old(encs).end@ + seq![
            BlurCmd::MipmapGen { src_frame: frame, dst_mip: 0 },
        ] + blur_pass_cmds(
            final(gfx).cache.entries@,
            old(gfx).next_bind_group_id as int,
            down_sched(DOWNSCALE_PASSES as int),
            up_sched(DOWNSCALE_PASSES as int),
        ),
{
    let ghost first_bg = old(gfx).next_bind_group_id as int;
    let n = DOWNSCALE_PASSES;
    initial_downscale(gfx, encs, frame);
    proof {
        lemma_down_sched_index(0, 0);
        assert(encs.end@ =~= old(encs).end@ + seq![
            BlurCmd::MipmapGen { src_frame: frame, dst_mip: 0 },
        ] + blur_pass_cmds(gfx.cache.entries@, first_bg, down_sched(0), up_sched(0)));
    }

    let mut mip_level: u32 = 0;
    while mip_level < n
        invariant
            mip_level <= n,
            n == DOWNSCALE_PASSES,
            gfx.wf(),
            gfx.ui_blur_mips == old(gfx).ui_blur_mips,
            old(gfx).ui_blur_mips > n,
            *gfx == (GfxContext {
                cache: gfx.cache,
                next_bind_group_id: gfx.next_bind_group_id,
                ..*old(gfx)
            }),
            gfx.next_bind_group_id == old(gfx).next_bind_group_id + mip_level,
            first_bg == old(gfx).next_bind_group_id as int,
            gfx.cache.entries@.len() >= old(gfx).cache.entries@.len(),
            gfx.cache.entries@.take(old(gfx).cache.entries@.len() as int) == old(
                gfx,
            ).cache.entries@,
            mip_level > 0 ==> cache_has(
                gfx.cache.entries@,
                PipelineKey::Blur(UIBlurPipeline::Downscale),
            ),
            forall|i: int|
                old(gfx).cache.entries@.len() <= i < gfx.cache.entries@.len() ==> (
                #[trigger] gfx.cache.entries@[i].key) == PipelineKey::Blur(
                    UIBlurPipeline::Downscale,
                ) || gfx.cache.entries@[i].key == PipelineKey::Blur(UIBlurPipeline::Upscale),
            encs.end@ == old(encs).end@ + seq![
                BlurCmd::MipmapGen { src_frame: frame, dst_mip: 0 },
            ] + blur_pass_cmds(
                gfx.cache.entries@,
                first_bg,
                down_sched(mip_level as int),
                up_sched(0),
            ),
        decreases n - mip_level,
    {
        let ghost pre_cache = gfx.cache;
        let ghost pre_end = encs.end@;
        do_pass(gfx, encs, UIBlurPipeline::Downscale, mip_level, mip_level + 1);
        proof {
            assert(gfx.cache.entries@.take(pre_cache.entries@.len() as int) =~= pre_cache.entries@);
            assert(gfx.cache.entries@.take(old(gfx).cache.entries@.len() as int) =~= old(
                gfx,
            ).cache.entries@);
            assert forall|i: int|
                old(gfx).cache.entries@.len() <= i < gfx.cache.entries@.len() implies (
            #[trigger] gfx.cache.entries@[i].key) == PipelineKey::Blur(UIBlurPipeline::Downscale)
                || gfx.cache.entries@[i].key == PipelineKey::Blur(UIBlurPipeline::Upscale) by {
                if i < pre_cache.entries@.len() {
                    assert(gfx.cache.entries@[i] == gfx.cache.entries@.take(
                        pre_cache.entries@.len() as int,
                    )[i]);
                } else {
                    assert(gfx.cache.entries@[i].key == PipelineKey::Blur(
                        UIBlurPipeline::Downscale,
                    ));
                }
            }
            if mip_level > 0 {
                lemma_blur_cmds_stable(
                    pre_cache.entries@,
                    gfx.cache.entries@,
                    first_bg,
                    down_sched(mip_level as int),
                    up_sched(0),
                );
            }
            lemma_down_sched_index(mip_level as int, mip_level as int);
            lemma_down_sched_index(mip_level + 1 as int, mip_level as int);
            lemma_up_sched_index(0, 0);
            assert(encs.end@ =~= old(encs).end@ + seq![
                BlurCmd::MipmapGen { src_frame: frame, dst_mip: 0 },
            ] + blur_pass_cmds(
                gfx.cache.entries@,
                first_bg,
                down_sched(mip_level + 1 as int),
                up_sched(0),
            ));
        }
        mip_level += 1;
    }

    let mut l: u32 = n;
    while l > 0
        invariant
            l <= n,
            n == DOWNSCALE_PASSES,
            gfx.wf(),
            gfx.ui_blur_mips == old(gfx).ui_blur_mips,
            old(gfx).ui_blur_mips > n,
            *gfx == (GfxContext {
                cache: gfx.cache,
                next_bind_group_id: gfx.next_bind_group_id,
                ..*old(gfx)
            }),
            gfx.next_bind_group_id == old(gfx).next_bind_group_id + n + (n - l),
            first_bg == old(gfx).next_bind_group_id as int,
            gfx.cache.entries@.len() >= old(gfx).cache.entries@.len(),
            gfx.cache.entries@.take(old(gfx).cache.entries@.len() as int) == old(
                gfx,
            ).cache.entries@,
            cache_has(gfx.cache.entries@, PipelineKey::Blur(UIBlurPipeline::Downscale)),
            l < n ==> cache_has(gfx.cache.entries@, PipelineKey::Blur(UIBlurPipeline::Upscale)),
            forall|i: int|
                old(gfx).cache.entries@.len() <= i < gfx.cache.entries@.len() ==> (
                #[trigger] gfx.cache.entries@[i].key) == PipelineKey::Blur(
                    UIBlurPipeline::Downscale,
                ) || gfx.cache.entries@[i].key == PipelineKey::Blur(UIBlurPipeline::Upscale),
            encs.end@ == old(encs).end@ + seq![
                BlurCmd::MipmapGen { src_frame: frame, dst_mip: 0 },
            ] + blur_pass_cmds(
                gfx.cache.entries@,
                first_bg,
                down_sched(n as int),
                up_sched(n as int).take(n - l as int),
            ),
        decreases l,
    {
        l = l - 1;
        let ghost pre_cache = gfx.cache;
        do_pass(gfx, encs, UIBlurPipeline::Upscale, l + 1, l);
        proof {
            assert(gfx.cache.entries@.take(pre_cache.entries@.len() as int) =~= pre_cache.entries@);
            assert(gfx.cache.entries@.take(old(gfx).cache.entries@.len() as int) =~= old(
                gfx,
            ).cache.entries@);
            assert forall|i: int|
                old(gfx).cache.entries@.len() <= i < gfx.cache.entries@.len() implies (
            #[trigger] gfx.cache.entries@[i].key) == PipelineKey::Blur(UIBlurPipeline::Downscale)
                || gfx.cache.entries@[i].key == PipelineKey::Blur(UIBlurPipeline::Upscale) by {
                if i < pre_cache.entries@.len() {
                    assert(gfx.cache.entries@[i] == gfx.cache.entries@.take(
                        pre_cache.entries@.len() as int,
                    )[i]);
                } else {
                    assert(gfx.cache.entries@[i].key == PipelineKey::Blur(UIBlurPipeline::Upscale));
                }
            }
            lemma_blur_cmds_stable(
                pre_cache.entries@,
                gfx.cache.entries@,
                first_bg,
                down_sched(n as int),
                up_sched(n as int).take(n - l - 1 as int),
            );
            lemma_down_sched_index(n as int, 0);
            lemma_up_sched_index(n as int, n - l - 1 as int);
            assert(up_sched(n as int).take(n - l as int) =~= up_sched(n as int).take(
                n - l - 1 as int,
            ).push(((l + 1) as u32, l as u32)));
            assert(encs.end@ =~= old(encs).end@ + seq![
                BlurCmd::MipmapGen { src_frame: frame, dst_mip: 0 },
            ] + blur_pass_cmds(
                gfx.cache.entries@,
                first_bg,
                down_sched(n as int),
                up_sched(n as int).take(n - l as int),
            ));
        }
    }
    proof {
        lemma_up_sched_index(n as int, 0);
        assert(up_sched(n as int).take(n as int) =~= up_sched(n as int));
    }
}

/// The surface the game renders to: its pixel size and format code.
#[derive(Clone, Copy, PartialEq, Eq, Structural, Debug)]
pub struct SurfaceConfiguration {
    pub width: u32,
    pub height: u32,
    pub format: u32,
}

/// A GPU texture descriptor, as this layer decides it.
#[derive(Clone, Copy, PartialEq, Eq, Structural, Debug)]
pub struct TextureDesc {
    pub width: u32,
    pub height: u32,
    pub layers: u32,
    pub format: u32,
    pub mip_count: u32,
    pub usage_render_attachment: bool,
    pub usage_texture_binding: bool,
    pub anisotropy: bool,
}

/// The blur chain texture: half the surface size, the surface's format,
/// one mip level per downscale pass plus the base level, renderable and
/// sampleable, without anisotropic filtering.
pub fn gen_blur_texture(sc: &SurfaceConfiguration) -> (r: TextureDesc)
    ensures
        r == (TextureDesc {
            width: sc.width / 2,
            height: sc.height / 2,
            layers: 1,
            format: sc.format,
            mip_count: (1 + DOWNSCALE_PASSES) as u32,
            usage_render_attachment: true,
            usage_texture_binding: true,
            anisotropy: false,
        }),
{
    TextureDesc {
        width: sc.width / 2,
        height: sc.height / 2,
        layers: 1,
        format: sc.format,
        mip_count: 1 + DOWNSCALE_PASSES,
        usage_render_attachment: true,
        usage_texture_binding: true,
        anisotropy: false,
    }
}

} // verus!

//! The pointer cursor: its image status and the animation schedule built
//! from the images of an Xcursor file.
use vstd::prelude::*;

use crate::surface::SurfaceId;

verus! {

/// One decoded Xcursor image.
pub struct CursorImage {
    pub width: u32,
    pub height: u32,
    /// How long the image is shown, in milliseconds.
    pub delay: u32,
    pub pixels_rgba: Vec<u8>,
}

/// An image of the animation with the time (in milliseconds from the start
/// of the cycle) at which it stops being shown.
pub struct CursorFrame {
    pub end_delay: u64,
    pub width: u32,
    pub height: u32,
    pub pixels_rgba: Vec<u8>,
}

/// What the cursor shows.
#[derive(Clone, Debug)]
pub enum CursorImageStatus {
    Hidden,
    Named(String),
    Surface(SurfaceId),
}

/// What is drawn for the cursor now.
#[derive(Clone, Copy, Debug, PartialEq, Eq, Structural)]
pub enum CursorRender {
    Nothing,
    Surface(SurfaceId),
    Frame(usize),
}

pub struct PointerElement {
    pub frames: Vec<CursorFrame>,
    pub total_delay: u64,
    pub current_delay: u64,
    pub status: CursorImageStatus,
}

/// Width, height, delay and RGBA pixels of an image.
pub type ImageView = (u32, u32, u32, Seq<u8>);

/// The images that `xcursor::parser::parse_xcursor` decodes from `content`,
/// or `None` where it rejects the file.
pub uninterp spec fn xcursor_images(content: Seq<u8>) -> Option<Seq<(u32, u32, u32, Seq<u8>)>>;

/// Relies on `xcursor::parser::parse_xcursor`: it returns the decoded images
/// in file order, or `None` for a malformed file; each image it returns has a
/// width and height in 1..=0x7fff and 4 * width * height RGBA bytes.
#[verifier::external_body]
fn parse_xcursor(content: &[u8]) -> (r: Option<Vec<CursorImage>>)
    ensures
        r is Some <==> xcursor_images(content@) is Some,
        r matches Some(v) ==> images_view(v@) == xcursor_images(content@).unwrap(),
        r matches Some(v) ==> forall|i: int| 0 <= i < v@.len() ==> {
            let im = #[trigger] v@[i];
            &&& 0 < im.width <= 0x7fff
            &&& 0 < im.height <= 0x7fff
            &&& im.pixels_rgba@.len() == 4 * im.width * im.height
        },
{
    xcursor::parser::parse_xcursor(content).map(|images| {
        images.into_iter().map(|i| CursorImage {
            width: i.width,
            height: i.height,
            delay: i.delay,
            pixels_rgba: i.pixels_rgba,
        }).collect()
    })
}

pub open spec fn images_view(v: Seq<CursorImage>) -> Seq<ImageView> {
    v.map_values(|c: CursorImage| (c.width, c.height, c.delay, c.pixels_rgba@))
}

pub open spec fn frames_view(v: Seq<CursorFrame>) -> Seq<(int, u32, u32, Seq<u8>)> {
    v.map_values(|f: CursorFrame| (f.end_delay as int, f.width, f.height, f.pixels_rgba@))
}

pub open spec fn is_default_named(s: CursorImageStatus) -> bool {
    s matches CursorImageStatus::Named(n) && n@ == "default"@
}

pub open spec fn fits(im: ImageView, size: u32) -> bool {
    im.0 == size && im.1 == size
}

/// Sum of the delays of the images of nominal `size`.
pub open spec fn total_delay_of(ims: Seq<ImageView>, size: u32) -> int
    decreases ims.len(),
{
    if ims.len() == 0 {
        0
    } else {
        total_delay_of(ims.drop_last(), size) + if fits(ims.last(), size) { ims.last().2 as int } else { 0 }
    }
}

/// The animation made of the images of nominal `size`, in file order, each
/// ending when the delays up to and including it have passed. Of images that
/// end at the same time only the last is kept.
pub open spec fn schedule(ims: Seq<ImageView>, size: u32) -> Seq<(int, u32, u32, Seq<u8>)>
    decreases ims.len(),
{
    if ims.len() == 0 {
        Seq::empty()
    } else {
        let prev = schedule(ims.drop_last(), size);
        let im = ims.last();
        if fits(im, size) {
            let t = total_delay_of(ims, size);
            if prev.len() > 0 && prev.last().0 == t {
                prev.update(prev.len() - 1, (t, im.0, im.1, im.3))
            } else {
                prev.push((t, im.0, im.1, im.3))
            }
        } else {
            prev
        }
    }
}

proof fn lemma_total_monotone(ims: Seq<ImageView>, size: u32, a: int, b: int)
    requires
        0 <= a <= b <= ims.len(),
    ensures
        total_delay_of(ims.take(a), size) <= total_delay_of(ims.take(b), size),
    decreases b - a,
{
    if a < b {
        lemma_total_monotone(ims, size, a, b - 1);
        assert(ims.take(b).drop_last() =~= ims.take(b - 1));
    }
}

/// The frames of a schedule end at strictly increasing times, none after the
/// total delay, and the last one ends exactly at the total delay.
pub proof fn lemma_schedule_ends(ims: Seq<ImageView>, size: u32)
    ensures
        ({
            let f = schedule(ims, size);
            &&& forall|i: int, j: int| 0 <= i < j < f.len() ==> f[i].0 < f[j].0
            &&& forall|i: int| 0 <= i < f.len() ==> f[i].0 <= total_delay_of(ims, size)
            &&& f.len() > 0 ==> f.last().0 == total_delay_of(ims, size)
        }),
    decreases ims.len(),
{
    if ims.len() > 0 {
        let d = ims.drop_last();
        lemma_schedule_ends(d, size);
        let prev = schedule(d, size);
        let f = schedule(ims, size);
        let t = total_delay_of(ims, size);
        assert(t >= total_delay_of(d, size));
        if fits(ims.last(), size) {
            if prev.len() > 0 && prev.last().0 == t {
                assert forall|i: int, j: int| 0 <= i < j < f.len() implies f[i].0 < f[j].0 by {
                    if j == f.len() - 1 {
                        assert(prev[i].0 < prev[j].0);
                    }
                }
            } else {
                assert forall|i: int, j: int| 0 <= i < j < f.len() implies f[i].0 < f[j].0 by {
                    if j == f.len() - 1 && prev.len() > 0 {
                        assert(prev[i].0 <= prev.last().0);
                    }
                }
            }
        }
    }
}

/// Whether the delays of the images of nominal `size` sum within 64 bits.
fn delays_fit(images: &Vec<CursorImage>, size: u32) -> (r: bool)
    ensures
        r == (total_delay_of(images_view(images@), size) <= u64::MAX as int),
{
    let ghost orig = images_view(images@);
    let n = images.len();
    let mut total: u64 = 0;
    let mut i: usize = 0;
    while i < n
        invariant
            n == images@.len(),
            orig == images_view(images@),
            i <= n,
            total as int == total_delay_of(orig.take(i as int), size),
        decreases n - i,
    {
        let im = &images[i];
        assert(orig.take(i + 1).drop_last() =~= orig.take(i as int));
        if im.width == size && im.height == size {
            if total > u64::MAX - (im.delay as u64) {
                proof {
                    lemma_total_monotone(orig, size, i + 1, n as int);
                    assert(orig.take(n as int) =~= orig);
                }
                return false;
            }
            total = total + im.delay as u64;
        }
        i = i + 1;
    }
    assert(orig.take(n as int) =~= orig);
    true
}

impl PointerElement {
    /// This element is the fresh animation of the images of nominal `size` in `ims`.
    pub open spec fn animates(&self, ims: Seq<ImageView>, size: u32) -> bool {
        &&& frames_view(self.frames@) == schedule(ims, size)
        &&& self.total_delay == total_delay_of(ims, size)
        &&& self.current_delay == 0
        &&& is_default_named(self.status)
    }

    /// The cursor animation for the images of nominal `size` in the Xcursor
    /// file `content`, which must be well formed, with delays that sum within
    /// 64 bits.
    pub fn new(content: &[u8], size: u32) -> (r: PointerElement)
        requires
            xcursor_images(content@) is Some,
            total_delay_of(xcursor_images(content@).unwrap(), size) <= u64::MAX as int,
        ensures
            r.animates(xcursor_images(content@).unwrap(), size),
    {
        let images = parse_xcursor(content).unwrap();
        PointerElement::from_images(images, size).unwrap()
    }

    /// `new` where its conditions hold; `None` when the file is malformed or
    /// the delays do not sum within 64 bits.
    pub fn try_new(content: &[u8], size: u32) -> (r: Option<PointerElement>)
        ensures
            xcursor_images(content@) is None ==> r is None,
            xcursor_images(content@) matches Some(ims) ==> {
                &&& total_delay_of(ims, size) > u64::MAX as int ==> r is None
                &&& total_delay_of(ims, size) <= u64::MAX as int ==> (r matches Some(p) && p.animates(ims, size))
            },
    {
        match parse_xcursor(content) {
            Some(images) => {
                if delays_fit(&images, size) {
                    Some(PointerElement::new(content, size))
                } else {
                    None
                }
            },
            None => None,
        }
    }

    /// Sets the position in the animation cycle from the clock, in milliseconds.
    pub fn set_current_delay(&mut self, now_ms: u64)
        requires
            now_ms > 0,
        ensures
            final(self).current_delay == old(self).total_delay % now_ms,
            final(self).total_delay == old(self).total_delay,
            final(self).frames == old(self).frames,
            final(self).status == old(self).status,
    {
        self.current_delay = self.total_delay % now_ms;
    }

    pub fn set_status(&mut self, status: CursorImageStatus)
        ensures
            final(self).status == status,
            final(self).total_delay == old(self).total_delay,
            final(self).current_delay == old(self).current_delay,
            final(self).frames == old(self).frames,
    {
        self.status = status;
    }

    /// What to draw now: nothing when hidden, the client's surface, or the
    /// first frame of the animation that has not ended at the current delay.
    pub fn render_elements(&self) -> (r: CursorRender)
        ensures
            self.status is Hidden ==> r == CursorRender::Nothing,
            self.status matches CursorImageStatus::Surface(s) ==> r == CursorRender::Surface(s),
            self.status is Named ==> match r {
                CursorRender::Frame(i) => i < self.frames@.len() && self.frames@[i as int].end_delay > self.current_delay
                    && forall|j: int| 0 <= j < i ==> (#[trigger] self.frames@[j]).end_delay <= self.current_delay,
                CursorRender::Nothing => forall|j: int| 0 <= j < self.frames@.len() ==> (#[trigger] self.frames@[j]).end_delay <= self.current_delay,
                CursorRender::Surface(_) => false,
            },
    {
        match &self.status {
            CursorImageStatus::Hidden => CursorRender::Nothing,
            CursorImageStatus::Surface(s) => CursorRender::Surface(*s),
            CursorImageStatus::Named(_) => {
                let mut i: usize = 0;
                while i < self.frames.len()
                    invariant
                        self.status is Named,
                        i <= self.frames@.len(),
                        forall|j: int| 0 <= j < i ==> (#[trigger] self.frames@[j]).end_delay <= self.current_delay,
                    decreases self.frames@.len() - i,
                {
                    if self.frames[i].end_delay > self.current_delay {
                        return CursorRender::Frame(i);
                    }
                    i = i + 1;
                }
                CursorRender::Nothing
            },
        }
    }

    /// The cursor animation for the images of nominal `size` among `images`;
    /// `None` when the delays do not fit in 64 bits.
    pub fn from_images(images: Vec<CursorImage>, size: u32) -> (r: Option<PointerElement>)
        ensures
            total_delay_of(images_view(images@), size) > u64::MAX as int ==> r is None,
            total_delay_of(images_view(images@), size) <= u64::MAX as int ==> (r matches Some(p) && p.animates(images_view(images@), size)),
    {
        let ghost orig = images_view(images@);
        let n = images.len();
        let mut frames: Vec<CursorFrame> = Vec::new();
        let mut total: u64 = 0;
        let mut i: usize = 0;
        while i < n
            invariant
                n == images@.len(),
                orig == images_view(images@),
                i <= n,
                frames_view(frames@) == schedule(orig.take(i as int), size),
                total as int == total_delay_of(orig.take(i as int), size),
            decreases n - i,
        {
            let im = &images[i];
            assert(orig.take(i + 1).drop_last() =~= orig.take(i as int));
            if im.width == size && im.height == size {
                if total > u64::MAX - (im.delay as u64) {
                    proof {
                        lemma_total_monotone(orig, size, i + 1, n as int);
                        assert(orig.take(n as int) =~= orig);
                    }
                    return None;
                }
                total = total + im.delay as u64;
                let pixels = im.pixels_rgba.clone();
                assert(pixels@ =~= im.pixels_rgba@);
                let ghost fv = frames_view(frames@);
                let frame = CursorFrame { end_delay: total, width: im.width, height: im.height, pixels_rgba: pixels };
                let n_frames = frames.len();
                if n_frames > 0 && frames[n_frames - 1].end_delay == total {
                    frames.set(n_frames - 1, frame);
                    assert(frames_view(frames@) =~= fv.update(n_frames - 1, (total as int, im.width, im.height, im.pixels_rgba@)));
                } else {
                    frames.push(frame);
                    assert(frames_view(frames@) =~= fv.push((total as int, im.width, im.height, im.pixels_rgba@)));
                }
            }
            i = i + 1;
        }
        assert(orig.take(n as int) =~= orig);
        Some(PointerElement {
            frames,
            total_delay: total,
            current_delay: 0,
            status: CursorImageStatus::Named("default".to_owned()),
        })
    }
}

} // verus!

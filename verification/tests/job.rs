use sticker_bot::error::ErrorKind;
use sticker_bot::job::{create_sticker, JobAction, JobError, JobEvent, JobStage};
use sticker_bot::limiter::RateLimiter;
use sticker_bot::stickers::{RemoteStickerHandle, Sticker, StickerError};
use sticker_bot::tagger::{tagging_request, TaggerError};

fn png(width: u32, height: u32) -> Vec<u8> {
    let pixels = image::RgbaImage::from_pixel(width, height, image::Rgba([10, 200, 30, 255]));
    let mut out = std::io::Cursor::new(Vec::new());
    image::DynamicImage::ImageRgba8(pixels).write_to(&mut out, image::ImageFormat::Png).unwrap();
    out.into_inner()
}

const REPLY: &str = "{\"candidates\":[{\"content\":{\"parts\":[{\"text\":\"\u{1f431}\u{2764}\"}]}}]}";

#[test]
fn job_makes_a_sticker_step_by_step() {
    let source = png(30, 60);
    let mut limiter = RateLimiter::new();
    let (job, action) = create_sticker("data/alice_cats_1.png", usize::MAX);
    assert_eq!(action, JobAction::Read { path: "data/alice_cats_1.png".to_string() });
    assert_eq!(job.stage(), JobStage::Reading);

    let (job, action) = job.step(&mut limiter, JobEvent::Source(Some(source.clone())));
    let JobAction::Upload { payload } = action else { panic!("no upload") };
    let sticker = image::load_from_memory_with_format(&payload, image::ImageFormat::WebP).unwrap();
    assert_eq!((sticker.width(), sticker.height()), (512, 512));
    assert_eq!(job.stage(), JobStage::Uploading);

    let (job, action) = job.step(&mut limiter, JobEvent::Uploaded("file-7".to_string()));
    assert_eq!(action, JobAction::Clock);
    assert_eq!(limiter.last_start(), None);

    let (job, action) = job.step(&mut limiter, JobEvent::Now(123_456));
    assert_eq!(action, JobAction::Load { path: "data/alice_cats_1.png".to_string() });
    assert_eq!(limiter.last_start(), Some(123_456));

    let (job, action) = job.step(&mut limiter, JobEvent::Source(Some(source.clone())));
    assert_eq!(action, JobAction::Ask { body: tagging_request(&source) });
    assert_eq!(job.stage(), JobStage::Asking);

    let (job, action) = job.step(&mut limiter, JobEvent::Reply(REPLY.to_string()));
    assert_eq!(
        action,
        JobAction::Deliver(Sticker::new(
            RemoteStickerHandle::new("file-7".to_string()).unwrap(),
            vec!["\u{1f431}".to_string(), "\u{2764}\u{fe0f}".to_string()],
        ))
    );
    assert_eq!(job.stage(), JobStage::Over);
    let (_, action) = job.step(&mut limiter, JobEvent::Done);
    assert_eq!(action, JobAction::Idle);
    assert_eq!(limiter.last_start(), Some(123_456));
}

#[test]
fn job_sleeps_until_the_limiter_grants_the_call() {
    let mut limiter = RateLimiter::new();
    assert_eq!(limiter.acquire(10_000), 0);
    let (job, _) = create_sticker("a.png", usize::MAX);
    let (job, _) = job.step(&mut limiter, JobEvent::Source(Some(png(8, 8))));
    let (job, _) = job.step(&mut limiter, JobEvent::Uploaded("f".to_string()));
    let (job, action) = job.step(&mut limiter, JobEvent::Now(11_000));
    assert_eq!(action, JobAction::Sleep { millis: 4000 });
    assert_eq!(job.stage(), JobStage::Sleeping);
    assert_eq!(limiter.last_start(), Some(10_000));
    let (job, action) = job.step(&mut limiter, JobEvent::Done);
    assert_eq!(action, JobAction::Clock);
    // Another job took the slot in between: sleep again.
    assert_eq!(limiter.acquire(14_500), 0);
    let (job, action) = job.step(&mut limiter, JobEvent::Now(15_000));
    assert_eq!(action, JobAction::Sleep { millis: 4000 });
    let (job, _) = job.step(&mut limiter, JobEvent::Done);
    let (job, action) = job.step(&mut limiter, JobEvent::Now(19_000));
    assert_eq!(action, JobAction::Load { path: "a.png".to_string() });
    assert_eq!(limiter.last_start(), Some(19_000));
    assert_eq!(job.stage(), JobStage::Loading);
}

#[test]
fn job_is_given_up_for_an_image_that_cannot_be_encoded() {
    let mut limiter = RateLimiter::new();
    let (job, _) = create_sticker("a.png", usize::MAX);
    let (job, action) = job.step(&mut limiter, JobEvent::Source(None));
    assert_eq!(action, JobAction::GiveUp(JobError::Sticker(StickerError::NotFound)));
    assert_eq!(job.stage(), JobStage::Over);

    let (job, _) = create_sticker("a.png", usize::MAX);
    let (_, action) = job.step(&mut limiter, JobEvent::Source(Some(b"junk".to_vec())));
    assert_eq!(action, JobAction::GiveUp(JobError::Sticker(StickerError::Undecodable)));

    let (job, _) = create_sticker("a.png", 10);
    let (_, action) = job.step(&mut limiter, JobEvent::Source(Some(png(8, 8))));
    assert_eq!(action, JobAction::GiveUp(JobError::Sticker(StickerError::Oversized)));
    assert_eq!(limiter.last_start(), None);
}

#[test]
fn job_is_given_up_for_an_empty_handle_before_any_tagging() {
    let mut limiter = RateLimiter::new();
    let (job, _) = create_sticker("a.png", usize::MAX);
    let (job, _) = job.step(&mut limiter, JobEvent::Source(Some(png(8, 8))));
    let (job, action) = job.step(&mut limiter, JobEvent::Uploaded(String::new()));
    assert_eq!(action, JobAction::GiveUp(JobError::Sticker(StickerError::EmptyHandle)));
    assert_eq!(job.stage(), JobStage::Over);
    assert_eq!(limiter.last_start(), None);
}

fn job_at_asking(limiter: &mut RateLimiter) -> sticker_bot::job::StickerJob {
    let (job, _) = create_sticker("a.png", usize::MAX);
    let (job, _) = job.step(limiter, JobEvent::Source(Some(png(8, 8))));
    let (job, _) = job.step(limiter, JobEvent::Uploaded("f".to_string()));
    let (job, _) = job.step(limiter, JobEvent::Now(5));
    let (job, action) = job.step(limiter, JobEvent::Source(Some(png(8, 8))));
    assert!(matches!(action, JobAction::Ask { .. }));
    job
}

#[test]
fn job_is_given_up_for_a_reply_that_is_no_json() {
    let mut limiter = RateLimiter::new();
    let job = job_at_asking(&mut limiter);
    let (_, action) = job.step(&mut limiter, JobEvent::Reply("<html>".to_string()));
    assert_eq!(action, JobAction::GiveUp(JobError::Tagger(TaggerError::MalformedReply)));
}

#[test]
fn job_with_a_reply_without_emoji_carries_the_fallback() {
    let mut limiter = RateLimiter::new();
    let job = job_at_asking(&mut limiter);
    let (_, action) = job.step(&mut limiter, JobEvent::Reply("{}".to_string()));
    let JobAction::Deliver(sticker) = action else { panic!("no sticker") };
    assert_eq!(sticker.emoji_list(), &vec!["\u{2699}\u{fe0f}".to_string()]);
    assert_eq!(sticker.handle().as_str(), "f");
}

#[test]
fn job_is_given_up_when_the_image_is_gone_before_tagging() {
    let mut limiter = RateLimiter::new();
    let (job, _) = create_sticker("a.png", usize::MAX);
    let (job, _) = job.step(&mut limiter, JobEvent::Source(Some(png(8, 8))));
    let (job, _) = job.step(&mut limiter, JobEvent::Uploaded("f".to_string()));
    let (job, _) = job.step(&mut limiter, JobEvent::Now(5));
    let (_, action) = job.step(&mut limiter, JobEvent::Source(None));
    assert_eq!(action, JobAction::GiveUp(JobError::Sticker(StickerError::NotFound)));
}

#[test]
fn job_is_given_up_on_a_reported_failure_or_an_answer_out_of_turn() {
    let mut limiter = RateLimiter::new();
    let (job, _) = create_sticker("a.png", usize::MAX);
    let (job, action) = job.step(&mut limiter, JobEvent::Failed(ErrorKind::Io));
    assert_eq!(action, JobAction::GiveUp(JobError::Stage(ErrorKind::Io)));
    let (_, action) = job.step(&mut limiter, JobEvent::Failed(ErrorKind::Io));
    assert_eq!(action, JobAction::Idle);

    let (job, _) = create_sticker("a.png", usize::MAX);
    let (_, action) = job.step(&mut limiter, JobEvent::Now(1));
    assert_eq!(action, JobAction::GiveUp(JobError::OutOfTurn));
    assert_eq!(limiter.last_start(), None);
}

#[test]
fn job_errors_by_family() {
    assert_eq!(JobError::Sticker(StickerError::NotFound).kind(), ErrorKind::Validation);
    assert_eq!(JobError::Sticker(StickerError::EmptyHandle).kind(), ErrorKind::ExternalService);
    assert_eq!(JobError::Tagger(TaggerError::MalformedReply).kind(), ErrorKind::ExternalService);
    assert_eq!(JobError::Stage(ErrorKind::Io).kind(), ErrorKind::Io);
    assert_eq!(JobError::OutOfTurn.kind(), ErrorKind::Validation);
}

#[test]
fn jobs_that_share_a_limiter_start_their_calls_four_seconds_apart() {
    // Three jobs wait for the tagging service at once; a clock that advances by 700 ms
    // with every step serves them in turn.
    let mut limiter = RateLimiter::new();
    let mut jobs = Vec::new();
    for index in 0..3 {
        let (job, _) = create_sticker("a.png", usize::MAX);
        let (job, _) = job.step(&mut limiter, JobEvent::Source(Some(png(4, 4))));
        let (job, action) = job.step(&mut limiter, JobEvent::Uploaded(format!("f{index}")));
        assert_eq!(action, JobAction::Clock);
        jobs.push(Some((job, action)));
    }
    let mut clock = 1_000u64;
    let mut starts = Vec::new();
    while starts.len() < 3 {
        for slot in jobs.iter_mut() {
            let Some((job, action)) = slot.take() else { continue };
            clock += 700;
            let event = match action {
                JobAction::Clock => JobEvent::Now(clock),
                JobAction::Sleep { millis } => {
                    assert_eq!(millis, 4000);
                    JobEvent::Done
                }
                other => panic!("unexpected {other:?}"),
            };
            let (job, action) = job.step(&mut limiter, event);
            if let JobAction::Load { .. } = action {
                starts.push(clock);
            } else {
                *slot = Some((job, action));
            }
        }
    }
    assert!(starts[1] - starts[0] >= 4000);
    assert!(starts[2] - starts[1] >= 4000);
    assert_eq!(limiter.last_start(), Some(starts[2]));
}

use schliessfach_manager::calendar::clock_millis;
use schliessfach_manager::screensaver::animations::all_animations;
use schliessfach_manager::screensaver::{animation_for_seed, animation_index_for_seed, get_random_animation};
use schliessfach_manager::screensaver::{
    Animation, AnimationPlayer, BouncingBox, LoadingSpinner, MatrixRain, ScreensaverScreen, SpinningClock, WavingText,
};

#[test]
fn test_spinning_clock_properties() {
    let anim = SpinningClock;
    assert_eq!(anim.name(), "Spinning Clock");
    assert_eq!(anim.frames().len(), 12);
    assert_eq!(anim.frame_delay_ms(), 150);
    assert_eq!(anim.width(), 2);
    assert_eq!(anim.height(), 1);
}

#[test]
fn test_bouncing_box_properties() {
    let anim = BouncingBox;
    assert_eq!(anim.name(), "Bouncing Box");
    assert!(!anim.frames().is_empty());
    assert_eq!(anim.frame_delay_ms(), 100);
    assert_eq!(anim.width(), 15);
    assert_eq!(anim.height(), 7);
}

#[test]
fn test_matrix_rain_properties() {
    let anim = MatrixRain;
    assert_eq!(anim.name(), "Matrix Rain");
    assert!(!anim.frames().is_empty());
    assert_eq!(anim.frame_delay_ms(), 200);
    assert_eq!(anim.width(), 15);
    assert_eq!(anim.height(), 8);
}

#[test]
fn test_loading_spinner_properties() {
    let anim = LoadingSpinner;
    assert_eq!(anim.name(), "Loading Spinner");
    assert_eq!(anim.frames().len(), 10);
    assert_eq!(anim.frame_delay_ms(), 100);
    assert_eq!(anim.width(), 14);
    assert_eq!(anim.height(), 3);
}

#[test]
fn test_waving_text_properties() {
    let anim = WavingText;
    assert_eq!(anim.name(), "Waving Text");
    assert!(!anim.frames().is_empty());
    assert_eq!(anim.frame_delay_ms(), 300);
    assert_eq!(anim.width(), 25);
    assert_eq!(anim.height(), 5);
}

#[test]
fn test_all_animations() {
    let anims = all_animations();
    assert_eq!(anims.len(), 5);
}

#[test]
fn test_animation_frames_not_empty() {
    for anim in all_animations() {
        assert!(!anim.frames().is_empty(), "Animation '{}' has no frames", anim.name());
    }
}

#[test]
fn all_animations_come_in_documented_order() {
    let names: Vec<&str> = all_animations().iter().map(|a| a.name()).collect();
    assert_eq!(names, vec!["Spinning Clock", "Bouncing Box", "Matrix Rain", "Loading Spinner", "Waving Text"]);
}

#[test]
fn test_get_random_animation() {
    for _ in 0..10 {
        let anim = get_random_animation();
        assert!(!anim.name().is_empty());
        assert!(!anim.frames().is_empty());
        assert!(anim.frame_delay_ms() > 0);
        assert!(anim.width() > 0);
        assert!(anim.height() > 0);
    }
}

#[test]
fn random_animation_index_is_seed_modulo_five() {
    assert_eq!(animation_index_for_seed(0), 0);
    assert_eq!(animation_index_for_seed(7), 2);
    assert_eq!(animation_index_for_seed(1_000_000_004), 4);
}

#[test]
fn animation_for_seed_picks_by_seed_modulo_five() {
    let mut slot: Box<dyn Animation> = Box::new(WavingText);
    animation_for_seed(0, &mut slot);
    assert_eq!(slot.name(), "Spinning Clock");
    animation_for_seed(7, &mut slot);
    assert_eq!(slot.name(), "Matrix Rain");
    animation_for_seed(1_000_000_004, &mut slot);
    assert_eq!(slot.name(), "Waving Text");
    animation_for_seed(8, &mut slot);
    assert_eq!(slot.name(), "Loading Spinner");
    assert_eq!(slot.width(), 14);
}

#[test]
fn random_animation_is_a_builtin_one() {
    let names: Vec<&str> = all_animations().iter().map(|a| a.name()).collect();
    let anim = get_random_animation();
    assert!(names.contains(&anim.name()));
}

#[test]
fn player_hands_out_the_animation_it_plays() {
    let player = AnimationPlayer::new_at(Box::new(BouncingBox), 0);
    assert_eq!(player.animation().name(), "Bouncing Box");
    assert_eq!(player.animation().frames().len(), BouncingBox.frames().len());
    assert_eq!(player.width(), BouncingBox.width());
    assert_eq!(player.height(), BouncingBox.height());
}

#[test]
fn test_all_animation_types_can_be_created() {
    let animations: Vec<Box<dyn Animation>> = vec![
        Box::new(SpinningClock),
        Box::new(BouncingBox),
        Box::new(MatrixRain),
        Box::new(LoadingSpinner),
        Box::new(WavingText),
    ];

    assert_eq!(animations.len(), 5);

    for anim in animations {
        assert!(!anim.name().is_empty());
    }
}

#[test]
fn test_animation_player_new() {
    let player = AnimationPlayer::new(Box::new(SpinningClock));
    assert_eq!(player.current_frame, 0);
    assert!(!player.current_frame().is_empty());
}

#[test]
fn test_animation_player_current_frame() {
    let player = AnimationPlayer::new(Box::new(SpinningClock));
    let frame = player.current_frame();
    assert!(SpinningClock.frames().contains(&frame));
}

#[test]
fn test_animation_player_wraps_around() {
    let mut player = AnimationPlayer::new(Box::new(SpinningClock));
    let total_frames = SpinningClock.frames().len();

    player.current_frame = total_frames - 1;
    player.last_frame_time = clock_millis() - 200;

    player.update();

    assert_eq!(player.current_frame, 0);
}

#[test]
fn player_advances_only_after_the_frame_delay() {
    let mut player = AnimationPlayer::new_at(Box::new(SpinningClock), 1_000);
    player.update_at(1_149);
    assert_eq!(player.current_frame, 0);
    assert_eq!(player.last_frame_time, 1_000);
    player.update_at(1_150);
    assert_eq!(player.current_frame, 1);
    assert_eq!(player.last_frame_time, 1_150);
    // a clock reading before the frame's time counts as no time passed
    player.update_at(10);
    assert_eq!(player.current_frame, 1);
}

#[test]
fn player_cycles_through_all_frames() {
    let mut player = AnimationPlayer::new_at(Box::new(LoadingSpinner), 0);
    let mut now = 0;
    for _ in 0..10 {
        now += 100;
        player.update_at(now);
    }
    assert_eq!(player.current_frame, 0);
}

#[test]
fn test_animation_player_reset() {
    let mut player = AnimationPlayer::new(Box::new(SpinningClock));
    player.current_frame = 5;

    player.reset();

    assert_eq!(player.current_frame, 0);
}

#[test]
fn test_animation_player_width_height() {
    let player = AnimationPlayer::new(Box::new(SpinningClock));
    assert_eq!(player.width(), SpinningClock.width());
    assert_eq!(player.height(), SpinningClock.height());
}

#[test]
fn test_screensaver_screen_new() {
    let screen = ScreensaverScreen::new(Box::new(SpinningClock));
    assert!(!screen.player().current_frame().is_empty());
}

#[test]
fn test_screensaver_screen_default() {
    let screen = ScreensaverScreen::default();
    assert_eq!(screen.player().animation().name(), "Spinning Clock");
}

#[test]
fn test_screensaver_screen_set_animation() {
    let mut screen = ScreensaverScreen::new(Box::new(SpinningClock));
    assert_eq!(screen.player().animation().name(), "Spinning Clock");

    screen.set_animation(Box::new(LoadingSpinner));
    assert_eq!(screen.player().animation().name(), "Loading Spinner");
}

#[test]
fn screensaver_player_mut_changes_the_screen() {
    let mut screen = ScreensaverScreen::new(Box::new(LoadingSpinner));
    screen.player_mut().current_frame = 3;
    assert_eq!(screen.player().current_frame, 3);
    screen.player_mut().reset_at(5);
    assert_eq!(screen.player().current_frame, 0);
    assert_eq!(screen.player().last_frame_time, 5);
}

fn assert_send_sync<T: Send + Sync>() {}

#[test]
fn test_animation_is_send_sync() {
    assert_send_sync::<SpinningClock>();
    assert_send_sync::<BouncingBox>();
    assert_send_sync::<MatrixRain>();
    assert_send_sync::<LoadingSpinner>();
    assert_send_sync::<WavingText>();
}

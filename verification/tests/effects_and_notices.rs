use hardware_alarm::config::{Limits, Resource, SoundFx};
use hardware_alarm::effects::{playback_chain, playback_plan, soundfx_profile, PlaybackChain};
use hardware_alarm::notice::{alarm_notice, decimal_u8, stop_notice};

const ALL_FX: [SoundFx; 14] = [
    SoundFx::NONE,
    SoundFx::SPEED125X,
    SoundFx::SPEED150X,
    SoundFx::SPEED175X,
    SoundFx::SPEED200X,
    SoundFx::SPEED250X,
    SoundFx::SPEED300X,
    SoundFx::BASSBOOST1,
    SoundFx::BASSBOOST2,
    SoundFx::BASSBOOST3,
    SoundFx::SLOWDOWN75X,
    SoundFx::SLOWDOWN50X,
    SoundFx::SLOWDOWN25X,
    SoundFx::SLOWDOWN15X,
];

#[test]
fn limits_rate_and_resource() {
    assert_eq!(Limits::Cpu { Rate: 80 }.rate(), 80);
    assert_eq!(Limits::Memory { Rate: 50 }.rate(), 50);
    assert_eq!(Limits::Heat { Rate: 90 }.rate(), 90);
    assert_eq!(Limits::Cpu { Rate: 80 }.resource(), Resource::Cpu);
    assert_eq!(Limits::Memory { Rate: 50 }.resource(), Resource::Memory);
    assert_eq!(Limits::Heat { Rate: 90 }.resource(), Resource::Heat);
}

#[test]
fn profile_of_every_effect() {
    let expected: [(u32, u32); 14] = [
        (100, 100),
        (125, 100),
        (150, 100),
        (175, 100),
        (200, 100),
        (250, 100),
        (300, 100),
        (100, 115),
        (100, 125),
        (100, 135),
        (75, 100),
        (50, 100),
        (25, 100),
        (15, 100),
    ];
    for (fx, want) in ALL_FX.iter().zip(expected.iter()) {
        assert_eq!(soundfx_profile(fx), *want, "{:?}", fx);
    }
}

#[test]
fn chain_of_every_effect() {
    assert_eq!(playback_chain(&SoundFx::NONE), PlaybackChain::Plain);
    assert_eq!(playback_chain(&SoundFx::SPEED175X), PlaybackChain::Speed { ratio_hundredths: 175 });
    assert_eq!(playback_chain(&SoundFx::SLOWDOWN15X), PlaybackChain::Speed { ratio_hundredths: 15 });
    assert_eq!(
        playback_chain(&SoundFx::BASSBOOST1),
        PlaybackChain::BassBoost { boost_tenths: 18, cutoff_hz: 180 }
    );
    assert_eq!(
        playback_chain(&SoundFx::BASSBOOST2),
        PlaybackChain::BassBoost { boost_tenths: 28, cutoff_hz: 180 }
    );
    assert_eq!(
        playback_chain(&SoundFx::BASSBOOST3),
        PlaybackChain::BassBoost { boost_tenths: 42, cutoff_hz: 180 }
    );
}

#[test]
fn profile_agrees_with_chain_for_every_effect() {
    for fx in ALL_FX.iter() {
        let (speed, bass) = soundfx_profile(fx);
        match playback_chain(fx) {
            PlaybackChain::Plain => assert_eq!((speed, bass), (100, 100)),
            PlaybackChain::Speed { ratio_hundredths } => {
                assert_eq!(ratio_hundredths, speed);
                assert_ne!(speed, 100);
                assert_eq!(bass, 100);
            }
            PlaybackChain::BassBoost { .. } => {
                assert_eq!(speed, 100);
                assert_ne!(bass, 100);
            }
        }
    }
}

#[test]
fn plan_keeps_path_and_level() {
    let plan = playback_plan("/home/u/Sounds/alarm.mp3".to_string(), 35, &SoundFx::SPEED250X);
    assert_eq!(plan.sound_path, "/home/u/Sounds/alarm.mp3");
    assert_eq!(plan.volume_percent, 35);
    assert_eq!(plan.chain, PlaybackChain::Speed { ratio_hundredths: 250 });
}

#[test]
fn decimal_rendering_matches_formatting() {
    for n in 0..=255u8 {
        assert_eq!(decimal_u8(n), format!("{}", n));
    }
}

#[test]
fn alarm_notices_name_the_limit() {
    let cpu = alarm_notice(&Limits::Cpu { Rate: 80 });
    assert_eq!(cpu.title, "Hardware limit reached");
    assert_eq!(cpu.body, "CPU usage crossed the configured limit: 80%");
    let memory = alarm_notice(&Limits::Memory { Rate: 5 });
    assert_eq!(memory.title, "Hardware limit reached");
    assert_eq!(memory.body, "Memory usage crossed the configured limit: 5%");
    let heat = alarm_notice(&Limits::Heat { Rate: 100 });
    assert_eq!(heat.title, "Hardware limit reached");
    assert_eq!(heat.body, "Temperature crossed the configured limit: 100°C");
}

#[test]
fn stop_notice_text() {
    let notice = stop_notice();
    assert_eq!(notice.title, "Stop");
    assert_eq!(notice.body, "App was already running in background, now it's stopped.");
}

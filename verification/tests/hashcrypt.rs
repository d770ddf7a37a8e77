use imxrt_core::hashcrypt::{
    Algorithm, Async, Blocking, Control, Hashcrypt, Instance, Select, SimChannel, SimEngine,
};

const DISABLE: Control = Control { mode: Select::Disabled, new_hash: true, dma: false };

#[test]
fn sha256_has_code_two() {
    assert_eq!(u8::from(Algorithm::SHA256), 0x2);
}

#[test]
fn new_blocking_resets_the_engine_and_holds_no_channel() {
    let mut engine = SimEngine::new();
    engine.write_ctrl(DISABLE);
    let driver: Hashcrypt<SimEngine, Blocking> = Hashcrypt::new_blocking(engine);
    let (engine, channel) = driver.release();
    assert!(engine.written().is_empty());
    assert!(channel.is_none());
}

#[test]
fn new_async_keeps_its_channel() {
    let driver: Hashcrypt<SimEngine, Async> =
        Hashcrypt::new_async(SimEngine::new(), SimChannel { number: 30 });
    let (engine, channel) = driver.release();
    assert!(engine.written().is_empty());
    assert_eq!(channel.map(|c| c.number), Some(30));
}

#[test]
fn blocking_sha256_starts_without_dma() {
    let mut driver: Hashcrypt<SimEngine, Blocking> = Hashcrypt::new_blocking(SimEngine::new());
    driver.new_sha256();
    let (engine, _) = driver.release();
    assert_eq!(
        engine.written(),
        &vec![DISABLE, Control { mode: Select::Code(2), new_hash: true, dma: false }]
    );
}

#[test]
fn async_sha256_starts_with_dma() {
    let mut driver: Hashcrypt<SimEngine, Async> =
        Hashcrypt::new_async(SimEngine::new(), SimChannel { number: 30 });
    driver.new_sha256();
    let (engine, _) = driver.release();
    assert_eq!(
        engine.written(),
        &vec![DISABLE, Control { mode: Select::Code(2), new_hash: true, dma: true }]
    );
}

#[test]
fn each_new_hash_writes_the_two_controls_again() {
    let mut driver: Hashcrypt<SimEngine, Blocking> = Hashcrypt::new_blocking(SimEngine::new());
    driver.new_sha256();
    driver.new_sha256();
    let (engine, _) = driver.release();
    assert_eq!(engine.written().len(), 4);
    assert_eq!(engine.written()[2], DISABLE);
    assert_eq!(engine.written()[3].mode, Select::Code(2));
}

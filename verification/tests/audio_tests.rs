use audio_switcher::audio::{volume_reregister_due, volume_worker_wait_ms, EndpointAttempts, POLICY_CONFIG_CANDIDATES, REGDB_E_CLASSNOTREG};
use audio_switcher::audio::{
    copy_devices, device_cache_fresh, device_display_name, device_id_valid, hex8_exec,
    retryable_hresult, snapshot_from, AudioBackend, AudioDevice, AudioError, AudioSnapshot,
    DeviceCache, NotifyFlags, DEVICE_CACHE_MS, SUPPRESS_WINDOW_MS,
};
use audio_switcher::config::AppConfig;

/// An in-memory backend: every call answers from its fields.
struct MockBackend {
    devices: Vec<AudioDevice>,
    default_id: Option<String>,
    inputs: Vec<AudioDevice>,
    default_input_id: Option<String>,
    volume: u32,
    mute: bool,
}

impl MockBackend {
    fn new(devices: Vec<AudioDevice>, default_id: Option<String>) -> Self {
        Self { devices, default_id, inputs: Vec::new(), default_input_id: None, volume: 50, mute: false }
    }

    fn with_inputs(mut self, inputs: Vec<AudioDevice>, default_input_id: Option<String>) -> Self {
        self.inputs = inputs;
        self.default_input_id = default_input_id;
        self
    }

    fn find(list: &[AudioDevice], id: &Option<String>) -> Option<AudioDevice> {
        list.iter().find(|d| Some(&d.id) == id.as_ref()).cloned()
    }
}

impl AudioBackend for MockBackend {
    fn enumerate_devices(&mut self) -> Result<Vec<AudioDevice>, AudioError> {
        Ok(self.devices.clone())
    }
    fn get_default_device(&self) -> Option<AudioDevice> {
        Self::find(&self.devices, &self.default_id)
    }
    fn set_default_device(&mut self, id: &str) -> Result<(), AudioError> {
        if self.devices.iter().any(|d| d.id == id) {
            self.default_id = Some(id.to_string());
            Ok(())
        } else {
            Err(AudioError::Failed(format!("no device {id}")))
        }
    }
    fn enumerate_input_devices(&mut self) -> Result<Vec<AudioDevice>, AudioError> {
        Ok(self.inputs.clone())
    }
    fn get_default_input_device(&self) -> Option<AudioDevice> {
        Self::find(&self.inputs, &self.default_input_id)
    }
    fn set_default_input_device(&mut self, id: &str) -> Result<(), AudioError> {
        if self.inputs.iter().any(|d| d.id == id) {
            self.default_input_id = Some(id.to_string());
            Ok(())
        } else {
            Err(AudioError::Failed(format!("no input {id}")))
        }
    }
    fn get_volume(&self) -> Result<u32, AudioError> {
        Ok(self.volume)
    }
    fn set_volume(&mut self, volume: u32) -> Result<(), AudioError> {
        self.volume = volume.min(100);
        Ok(())
    }
    fn get_mute(&self) -> Result<bool, AudioError> {
        Ok(self.mute)
    }
    fn set_mute(&mut self, mute: bool) -> Result<(), AudioError> {
        self.mute = mute;
        Ok(())
    }
    fn clamp_volume_if_needed(&mut self, cfg: &AppConfig) -> Result<(), AudioError> {
        if let Some(target) = audio_switcher::audio::clamp_target(cfg, self.volume) {
            self.volume = target;
        }
        Ok(())
    }
    fn clear_cache(&mut self) {}
}

fn dev(id: &str, name: &str) -> AudioDevice {
    AudioDevice { id: id.into(), name: name.into() }
}

#[test]
fn clamp_via_backend() {
    let cfg = AppConfig { volume_limit: 25, volume_limit_enabled: true, ..Default::default() };
    let mut m = MockBackend::new(vec![], None);
    m.volume = 80;
    m.clamp_volume_if_needed(&cfg).unwrap();
    assert_eq!(m.volume, 25);
}

#[test]
fn set_default_input_device_mock() {
    let outs = vec![dev("a", "A")];
    let ins = vec![dev("m1", "Mic"), dev("m2", "Headset Mic")];
    let mut m = MockBackend::new(outs, Some("a".into())).with_inputs(ins, Some("m1".into()));
    assert_eq!(m.get_default_input_device().map(|d| d.id), Some("m1".into()));
    m.set_default_input_device("m2").unwrap();
    assert_eq!(m.get_default_input_device().map(|d| d.id), Some("m2".into()));
    assert!(m.set_default_input_device("nope").is_err());
    assert_eq!(m.get_default_device().map(|d| d.id), Some("a".into()));
    let snap = m.fetch_snapshot_clamped(&AppConfig::default());
    assert_eq!(snap.input_devices.len(), 2);
    assert_eq!(snap.default_input_device.map(|d| d.id), Some("m2".into()));
}

#[test]
fn set_default_device_mock() {
    let devs = vec![dev("a", "A"), dev("b", "B")];
    let mut m = MockBackend::new(devs, Some("a".into()));
    m.set_default_device("b").unwrap();
    assert_eq!(m.default_id.as_deref(), Some("b"));
    assert!(m.set_default_device("c").is_err());
}

#[test]
fn the_snapshot_reports_the_capped_volume() {
    let cfg = AppConfig { volume_limit: 30, volume_limit_enabled: true, ..Default::default() };
    let mut m = MockBackend::new(vec![dev("a", "A")], Some("a".into()));
    m.volume = 90;
    m.mute = true;
    let snap = m.fetch_snapshot_clamped(&cfg);
    assert_eq!(snap.volume, 30);
    assert!(snap.mute);
    assert_eq!(snap.devices, vec![dev("a", "A")]);
    assert_eq!(m.get_volume_and_mute().unwrap(), (90, true));
    assert!(!m.poll_device_changed());
    assert!(!m.take_volume_changed());
}

#[test]
fn failed_reads_show_as_empty_lists_and_half_volume() {
    let cfg = AppConfig::default();
    let snap = snapshot_from(
        Err(AudioError::Failed("x".into())),
        None,
        Err(AudioError::Com { hr: -1, msg: "y".into() }),
        None,
        Err(AudioError::Failed("z".into())),
        &cfg,
    );
    assert!(snap.devices.is_empty());
    assert!(snap.input_devices.is_empty());
    assert_eq!(snap.volume, 25, "50% capped at the default limit");
    assert!(!snap.mute);
    let def = AudioSnapshot::default();
    assert_eq!(def.volume, 50);
}

#[test]
fn audio_errors_render_their_code() {
    assert_eq!(AudioError::Com { hr: 0x8007_001Eu32 as i32, msg: "busy".into() }.to_string(), "COM 0x8007001E: busy");
    assert_eq!(AudioError::Failed("gone".into()).to_string(), "audio failed: gone");
    assert_eq!(hex8_exec(0xAB), "000000AB");
    assert!(retryable_hresult(0x8007_001E));
    assert!(retryable_hresult(0x8007_04D4));
    assert!(!retryable_hresult(0x8007_0057));
}

#[test]
fn device_ids_and_names() {
    assert!(device_id_valid("{0.0.0.00000000}.{abc}"));
    assert!(!device_id_valid(""));
    assert!(!device_id_valid("a\0b"));
    assert_eq!(device_display_name("Speakers", Some("x")), "Speakers");
}

#[test]
fn the_device_list_is_reused_while_fresh() {
    assert!(device_cache_fresh(Some(1_000), 1_000 + DEVICE_CACHE_MS - 1));
    assert!(!device_cache_fresh(Some(1_000), 1_000 + DEVICE_CACHE_MS));
    assert!(!device_cache_fresh(None, 0));
    let mut cache = DeviceCache::new();
    assert!(cache.fresh(0).is_none());
    cache.store(&vec![dev("a", "A")], 10);
    assert_eq!(cache.fresh(20), Some(vec![dev("a", "A")]));
    assert!(cache.fresh(10 + DEVICE_CACHE_MS).is_none());
    cache.store(&Vec::new(), 100);
    assert_eq!(cache.fresh(100), Some(Vec::new()), "a removal is shown, not the stale list");
    cache.clear();
    assert!(cache.fresh(100).is_none());
    assert_eq!(copy_devices(&vec![dev("x", "X")]), vec![dev("x", "X")]);
}

#[test]
fn notifications_latch_until_taken_and_echoes_are_ignored() {
    let mut flags = NotifyFlags::new();
    assert!(!flags.take_device_changed());
    flags.on_device_event();
    assert!(flags.device_changed_pending());
    assert!(flags.take_device_changed());
    assert!(!flags.device_changed_pending());
    flags.suppress_self_changes_for(1_000, SUPPRESS_WINDOW_MS);
    assert!(flags.suppress_notify(1_100));
    assert!(!flags.on_volume_notify(1_100), "our own write's echo");
    assert!(!flags.take_volume_changed());
    assert!(flags.on_volume_notify(1_000 + SUPPRESS_WINDOW_MS + 1));
    assert!(flags.take_volume_changed());
    assert!(!flags.take_volume_changed());
}

#[test]
fn the_volume_worker_registers_when_needed_and_paces_retries() {
    assert!(volume_reregister_due(false, false));
    assert!(volume_reregister_due(true, true));
    assert!(!volume_reregister_due(true, false));
    assert_eq!(volume_worker_wait_ms(true), 60_000);
    assert_eq!(volume_worker_wait_ms(false), 1_000);
    let mut flags = NotifyFlags::new();
    assert!(!flags.take_reregister());
    flags.request_volume_reregister();
    assert!(flags.take_reregister());
    assert!(!flags.take_reregister());
}

#[test]
fn switching_the_default_reports_the_last_failure() {
    assert_eq!(POLICY_CONFIG_CANDIDATES.len(), 4);
    assert_eq!(POLICY_CONFIG_CANDIDATES[0].2, 13);
    assert_eq!(POLICY_CONFIG_CANDIDATES[3].2, 12);
    assert_eq!(REGDB_E_CLASSNOTREG, 0x8004_0154u32 as i32);
    let mut attempts = EndpointAttempts::new();
    assert_eq!(attempts.exhausted(), Err(REGDB_E_CLASSNOTREG));
    attempts.failed(-5);
    attempts.failed(-7);
    assert_eq!(attempts.exhausted(), Err(-7));
}

/// A backend that answers enumeration through the library's device cache and
/// counts how often it really enumerated.
struct CachedBackend {
    devices: Vec<AudioDevice>,
    cache: DeviceCache,
    enumerate_count: u32,
}

impl CachedBackend {
    fn new(devices: Vec<AudioDevice>) -> Self {
        Self { devices, cache: DeviceCache::new(), enumerate_count: 0 }
    }

    fn enumerate_devices_at(&mut self, now_ms: u64) -> Vec<AudioDevice> {
        if let Some(cached) = self.cache.fresh(now_ms) {
            return cached;
        }
        self.enumerate_count += 1;
        let list = copy_devices(&self.devices);
        self.cache.store(&list, now_ms);
        list
    }
}

#[test]
fn mock_enumerate_cache() {
    let mut m = CachedBackend::new(vec![dev("a", "Speaker")]);
    let first = m.enumerate_devices_at(0);
    assert_eq!(first.len(), 1);
    let count_before = m.enumerate_count;
    let second = m.enumerate_devices_at(DEVICE_CACHE_MS / 2);
    assert_eq!(second.len(), 1);
    assert_eq!(m.enumerate_count, count_before, "should hit the cache while fresh");
    let _third = m.enumerate_devices_at(DEVICE_CACHE_MS + 50);
    assert_eq!(m.enumerate_count, count_before + 1);
}

#[test]
fn mock_empty_shows_empty() {
    let mut m = CachedBackend::new(vec![dev("a", "Sp")]);
    let _ = m.enumerate_devices_at(0);
    m.devices = vec![];
    let after = m.enumerate_devices_at(DEVICE_CACHE_MS + 50);
    // After removal, the list is empty, not the stale cached one.
    assert_eq!(after.len(), 0);
}

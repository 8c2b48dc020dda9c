use libroccat::ryosmkfx::quantizer::quantize_channel;
use libroccat::ryosmkfx::{LightLayer, LightLayerData, LightLayerKey};

fn key(red: u8, green: u8, blue: u8, state: bool) -> LightLayerKey {
    LightLayerKey { red, green, blue, state }
}

#[test]
fn three_red_values_cluster_exactly() {
    let reds = [10u8, 200, 250];
    let mut values = [0u8; 120];
    for i in 0..120 {
        values[i] = reds[i % 3];
    }
    let active = [true; 120];
    let (means, cluster) = quantize_channel(&values, &active);
    let used: Vec<u8> = means.iter().copied().filter(|m| *m != 0).collect();
    assert_eq!(used, vec![10, 200, 250]);
    for i in 0..120 {
        assert_eq!(means[cluster[i] as usize], values[i]);
    }

    let mut data = LightLayerData::default();
    for i in 0..120 {
        data.set_light(i, key(reds[i % 3], 0, 0, true));
    }
    let decoded = LightLayer::from_data(&data).get_data();
    for i in 0..120 {
        assert_eq!(decoded.get_light(i), key(reds[i % 3], 0, 0, true));
    }
}

#[test]
fn few_colors_round_trip() {
    let mut data = LightLayerData::default();
    for i in 0..120 {
        let on = i % 5 != 0;
        data.set_light(i, key((i % 7 * 30) as u8, (i % 4 * 60) as u8, if i < 60 { 0 } else { 255 }, on));
    }
    let mut layer = LightLayer::default();
    layer.set_data(&data);
    let decoded = layer.get_data();
    for i in 0..120 {
        let k = data.get_light(i);
        let d = decoded.get_light(i);
        assert_eq!(d.state, k.state);
        if k.state {
            assert_eq!(d, k);
        } else {
            assert_eq!((d.red, d.green, d.blue), (0, 0, 0));
        }
    }
    for i in 120..256 {
        assert_eq!(decoded.get_light(i), key(0, 0, 0, false));
    }
}

#[test]
fn many_colors_reach_a_fixed_point() {
    let mut values = [0u8; 120];
    for i in 0..120 {
        values[i] = (i * 2) as u8;
    }
    let active = [true; 120];
    let (means, cluster) = quantize_channel(&values, &active);
    for i in 0..120 {
        let d = |j: usize| (values[i] as i32 - means[j] as i32).abs();
        let mine = d(cluster[i] as usize);
        for j in 0..7 {
            assert!(mine <= d(j));
            if j < cluster[i] as usize {
                assert!(d(j) > mine);
            }
        }
    }
    // Each mean is the floor of the average of its members.
    for j in 0..7 {
        let members: Vec<u32> = (0..120).filter(|i| cluster[*i] as usize == j).map(|i| values[i] as u32).collect();
        if !members.is_empty() {
            assert_eq!(means[j] as u32, members.iter().sum::<u32>() / members.len() as u32);
        }
    }
}

#[test]
fn inactive_keys_are_unassigned() {
    let mut values = [0u8; 120];
    let mut active = [false; 120];
    values[3] = 77;
    active[3] = true;
    values[4] = 99;
    let (means, cluster) = quantize_channel(&values, &active);
    assert_eq!(means, [77, 0, 0, 0, 0, 0, 0]);
    assert_eq!(cluster[3], 0);
    assert_eq!(cluster[4], 255);
    let (means, cluster) = quantize_channel(&values, &[false; 120]);
    assert_eq!(means, [0; 7]);
    assert!(cluster.iter().all(|c| *c == 255));
}

#[test]
fn keys_are_addressed_by_sdk_index() {
    let mut data = LightLayerData::default();
    data.set_all_states(true);
    data.set_key_red(0, 0xff);
    data.set_key_green(2, 0x10);
    data.set_key_blue(16, 0x20);
    data.set_key_state(16, false);
    assert_eq!(data.get_light(1).red, 0xff);
    assert_eq!(data.get_light(0x0e).green, 0x10);
    assert_eq!(data.get_light(0).blue, 0x20);
    assert!(!data.get_light(0).state);
    assert!(data.get_light(200).state);
    assert_eq!(data.get_key_red(0), 0xff);
    assert_eq!(data.get_key_green(2), 0x10);
    assert_eq!(data.get_key_blue(16), 0x20);
    assert!(!data.get_key_state(16));
    data.set_all_states(false);
    assert!(!data.get_key_state(0));
    assert_eq!(data.get_key_red(0), 0xff);
}

#[test]
fn light_layer_bytes_round_trip() {
    let mut data = LightLayerData::default();
    data.set_all_states(true);
    for i in 0..120 {
        data.set_light(i, key(i as u8, 255 - i as u8, 7, i % 2 == 0));
    }
    let layer = LightLayer::from_data(&data);
    let bytes = layer.to_bytes();
    assert_eq!(bytes.len(), 228);
    let again = LightLayer::from_bytes(&bytes);
    assert_eq!(again.to_bytes(), bytes);
    // State bits come first, least significant bit first.
    assert_eq!(bytes[0], 0b0101_0101);
}

#[test]
fn default_layer_is_all_zero() {
    assert!(LightLayer::default().to_bytes().iter().all(|b| *b == 0));
    assert!(LightLayer::default().is_decodable());
}

use coral_drivers::r8169::mac::{mac_from_eri_words, rar_exgmac_words};

#[test]
fn the_address_words_written_read_back_as_the_address() {
    for a in [
        [0x00, 0x11, 0x22, 0x33, 0x44, 0x55],
        [0xff, 0xfe, 0xfd, 0xfc, 0xfb, 0xfa],
        [0x02, 0x00, 0x00, 0x00, 0x00, 0x01],
    ] {
        let w = rar_exgmac_words(&a);
        assert_eq!((w[0].0, w[1].0), (0xe0, 0xe4));
        assert_eq!(mac_from_eri_words(w[0].1, w[1].1), a);
    }
}

#[test]
fn the_upper_half_of_the_high_eri_word_never_reaches_the_address() {
    let low = 0x3322_1100;
    for high in [0x0000_5544u32, 0xffff_5544, 0x1234_5544] {
        assert_eq!(mac_from_eri_words(low, high), [0x00, 0x11, 0x22, 0x33, 0x44, 0x55]);
    }
}

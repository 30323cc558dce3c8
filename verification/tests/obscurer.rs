use short_crypt::ShortCrypt;
use template_app::obscurer::{
    bytes_or_empty, decoding_outcome, obscure, recover_token, reveal_bytes, reveal_or_empty,
    token_of_bytes, DecodingError,
};

fn is_displayable(text: &str) -> bool {
    text.chars().all(|c| c.is_ascii_digit() || c.is_ascii_uppercase())
}

#[test]
fn obscure_gives_the_cipher_text() {
    assert_eq!(obscure("articles", "magickey"), "3BHNNR45XZH8PU");
}

#[test]
fn obscure_agrees_with_the_cipher() {
    for key in ["", "k", "poggers", "magickey", "ключ"] {
        for plaintext in ["", "a", "articles", "token.with-symbols_123", "日本語 text"] {
            let expected = ShortCrypt::new(key).encrypt_to_qr_code_alphanumeric(plaintext);
            assert_eq!(obscure(plaintext, key), expected);
        }
    }
}

#[test]
fn obscure_is_deterministic() {
    assert_eq!(obscure("secret", "poggers"), obscure("secret", "poggers"));
}

#[test]
fn obscure_changes_the_plaintext() {
    assert_ne!(obscure("articles", "magickey"), "articles");
    assert_ne!(obscure("SECRET", "poggers"), "SECRET");
}

#[test]
fn obscure_depends_on_the_key() {
    assert_ne!(obscure("articles", "magickey"), obscure("articles", "poggers"));
}

#[test]
fn obscured_text_is_displayable() {
    for plaintext in ["", "a", "articles", "with space", "日本語", "\u{0}\u{7f}"] {
        let text = obscure(plaintext, "poggers");
        assert!(is_displayable(&text), "{:?}", text);
    }
}

#[test]
fn obscured_text_has_the_stated_length() {
    let mut plaintext = String::new();
    for n in 0..40usize {
        assert_eq!(plaintext.len(), n);
        let text = obscure(&plaintext, "poggers");
        assert_eq!(text.chars().count(), (8 * n + 4) / 5 + 1);
        plaintext.push('x');
    }
    assert_eq!(obscure("", "poggers").len(), 1);
    assert_eq!(obscure("articles", "magickey").len(), 14);
}

#[test]
fn reveal_gives_the_cipher_data() {
    assert_eq!(reveal_bytes("3BHNNR45XZH8PU", "magickey"), Ok(b"articles".to_vec()));
}

#[test]
fn reveal_undoes_obscure() {
    for key in ["", "k", "poggers", "magickey", "ключ"] {
        for plaintext in ["", "a", "articles", "token.with-symbols_123", "日本語 text"] {
            let text = obscure(plaintext, key);
            assert_eq!(reveal_bytes(&text, key), Ok(plaintext.as_bytes().to_vec()));
        }
    }
}

#[test]
fn reveal_undoes_obscure_for_every_short_length() {
    let mut plaintext = String::new();
    for _ in 0..64 {
        let text = obscure(&plaintext, "poggers");
        assert_eq!(reveal_bytes(&text, "poggers"), Ok(plaintext.as_bytes().to_vec()));
        plaintext.push('z');
    }
}

#[test]
fn the_cipher_keeps_its_word_on_every_short_plaintext() {
    for key in ["", "poggers", "magickey"] {
        for code in 0u32..0x800 {
            let first = char::from_u32(code).unwrap();
            for plaintext in [first.to_string(), format!("{}{}", first, "tail")] {
                let text = obscure(&plaintext, key);
                assert!(is_displayable(&text));
                assert_eq!(text.chars().count(), (8 * plaintext.len() + 4) / 5 + 1);
                assert_eq!(reveal_bytes(&text, key), Ok(plaintext.as_bytes().to_vec()));
                assert_eq!(recover_token(&text, key), plaintext);
            }
        }
    }
}

#[test]
fn reveal_of_the_empty_text_fails() {
    for key in ["", "k", "poggers", "magickey"] {
        assert_eq!(reveal_bytes("", key), Err(DecodingError));
    }
}

#[test]
fn reveal_rejects_what_is_no_cipher_text() {
    assert_eq!(reveal_bytes("not a cipher text", "poggers"), Err(DecodingError));
    assert_eq!(reveal_bytes("lowercase", "poggers"), Err(DecodingError));
    assert_eq!(reveal_bytes("!!!!", "poggers"), Err(DecodingError));
    assert_eq!(reveal_bytes("日本語", "poggers"), Err(DecodingError));
}

#[test]
fn reveal_agrees_with_the_cipher() {
    for text in ["", "3BHNNR45XZH8PU", "3BHNNR45XZH8PV", "A", "0", "ABCDEFGH", "lower", "W"] {
        for key in ["magickey", "poggers"] {
            let expected = ShortCrypt::new(key).decrypt_qr_code_alphanumeric(text);
            match reveal_bytes(text, key) {
                Ok(data) => assert_eq!(Ok(data), expected),
                Err(DecodingError) => assert!(expected.is_err()),
            }
        }
    }
}

#[test]
fn decoding_outcome_keeps_the_bytes() {
    assert_eq!(decoding_outcome(Ok(vec![1, 2, 3])), Ok(vec![1, 2, 3]));
    assert_eq!(decoding_outcome(Ok(Vec::new())), Ok(Vec::new()));
}

#[test]
fn decoding_outcome_drops_the_message() {
    assert_eq!(decoding_outcome(Err("The QR code alphanumeric text is incorrect.")), Err(DecodingError));
    assert_eq!(decoding_outcome(Err("")), Err(DecodingError));
}

#[test]
fn bytes_or_empty_keeps_a_success() {
    assert_eq!(bytes_or_empty(Ok(vec![1, 2, 3])), vec![1, 2, 3]);
    assert_eq!(bytes_or_empty(Ok(Vec::new())), Vec::<u8>::new());
}

#[test]
fn bytes_or_empty_absorbs_a_failure() {
    assert_eq!(bytes_or_empty(Err(DecodingError)), Vec::<u8>::new());
}

#[test]
fn reveal_or_empty_of_the_empty_text_is_empty() {
    for key in ["", "k", "poggers", "magickey"] {
        assert_eq!(reveal_or_empty("", key), Vec::<u8>::new());
    }
}

#[test]
fn reveal_or_empty_gives_the_data() {
    assert_eq!(reveal_or_empty("3BHNNR45XZH8PU", "magickey"), b"articles".to_vec());
    assert_eq!(reveal_or_empty("lowercase", "magickey"), Vec::<u8>::new());
}

#[test]
fn token_of_bytes_decodes_utf8() {
    assert_eq!(token_of_bytes(b"articles".to_vec()), "articles");
    assert_eq!(token_of_bytes("日本語".as_bytes().to_vec()), "日本語");
    assert_eq!(token_of_bytes(vec![0xF0, 0x9F, 0x98, 0x80]), "\u{1F600}");
    assert_eq!(token_of_bytes(Vec::new()), "");
}

#[test]
fn token_of_bytes_is_empty_for_what_is_no_utf8() {
    assert_eq!(token_of_bytes(vec![0xFF]), "");
    assert_eq!(token_of_bytes(vec![b'a', 0x80]), "");
    assert_eq!(token_of_bytes(vec![0xC0, 0x80]), "");
    assert_eq!(token_of_bytes(vec![0xED, 0xA0, 0x80]), "");
    assert_eq!(token_of_bytes(vec![0xE2, 0x82]), "");
}

#[test]
fn recover_token_undoes_obscure() {
    for key in ["", "poggers", "magickey"] {
        for token in ["", "a", "articles", "MTIzNDU2.abc-DEF_ghi", "日本語"] {
            assert_eq!(recover_token(&obscure(token, key), key), token);
        }
    }
}

#[test]
fn recover_token_of_the_empty_text_is_empty() {
    for key in ["", "poggers", "magickey"] {
        assert_eq!(recover_token("", key), "");
    }
}

#[test]
fn recover_token_of_a_rejected_text_is_empty() {
    assert_eq!(recover_token("not a cipher text", "poggers"), "");
}

#[test]
fn recover_token_of_revealed_non_utf8_is_empty() {
    let stored = ShortCrypt::new("poggers").encrypt_to_qr_code_alphanumeric(&[0xFFu8, 0xFE]);
    assert_eq!(reveal_bytes(&stored, "poggers"), Ok(vec![0xFF, 0xFE]));
    assert_eq!(recover_token(&stored, "poggers"), "");
}

use position_token::metadata::build_position_token_metadata;

#[test]
fn name_of_the_all_zero_address() {
    // The all-zero address renders in base 58 as thirty-two `1` characters.
    let key = vec![0u8; 32];
    let (name, symbol, uri) = build_position_token_metadata(&key, &key, &key);
    assert_eq!(name, "OWP 1111...1111");
    assert_eq!(symbol, "OWP");
    assert_eq!(
        uri,
        "https://position-nft.orca.so/meta/11111111111111111111111111111111/11111111111111111111111111111111",
    );
    assert!(uri.len() < 128);
}

#[test]
fn name_splices_the_rendered_mint_address() {
    let mut mint_key = vec![0u8; 32];
    for (i, b) in mint_key.iter_mut().enumerate() {
        *b = (i as u8) * 7 + 1;
    }
    let pool_key = vec![9u8; 32];
    let position_key = vec![250u8; 32];

    let mut arr = [0u8; 32];
    arr.copy_from_slice(&mint_key);
    let rendered = solana_program::pubkey::Pubkey::new_from_array(arr).to_string();
    let expected_name = format!(
        "OWP {}...{}",
        &rendered[0..4],
        &rendered[rendered.len() - 4..],
    );

    let (name, _symbol, uri) = build_position_token_metadata(&mint_key, &position_key, &pool_key);
    assert_eq!(name, expected_name);

    let mut arr = [0u8; 32];
    arr.copy_from_slice(&pool_key);
    let pool_rendered = solana_program::pubkey::Pubkey::new_from_array(arr).to_string();
    let mut arr = [0u8; 32];
    arr.copy_from_slice(&position_key);
    let position_rendered = solana_program::pubkey::Pubkey::new_from_array(arr).to_string();
    let expected_uri = format!(
        "https://position-nft.orca.so/meta/{}/{}",
        pool_rendered, position_rendered,
    );
    assert_eq!(uri, expected_uri);
    assert!(uri.len() < 128);
}

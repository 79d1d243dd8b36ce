# rsmkswap

Sets up a Linux swap area on a device or file.

```
rsmkswap -F -s 81920 swepfile --label SWEPFILE
```

The library under `src/` makes every decision; of the system it asks nothing but random bytes,
where a UUID is to be drawn. It reads the arguments (`cli`, `mkswap`), settles the page size
(`pagesize`), says how the device is to be opened and measured (`device`), which pages are to be
read in search of bad ones (`scan`), and which bytes are to be written where (`area`, `header`,
`endian`, `identity`). A `Session` (`session`) puts these together: it names the next operation
of the system, and the reply to it leads to the next one. `swapheader` is a second builder of
headers, in native byte order. `laws` holds what is proved of the library as a whole.

The program under `app/` performs the operations and prints what the library has to say.

## What is proved, and what is believed

Verus proves the library against its contracts, but for these items of other crates and of std,
whose contracts it believes:

- clap (`cli`): putting the command line together (`Command::new`, `version`, `about`,
  `infer_long_args`, `arg`) and reading the arguments (`Command::try_get_matches_from`).
- uuid (`identity`): `Uuid::from_str`, `Uuid::new_v4`, and the text of a `Uuid`.
- std: `u32::to_le`, `u32::to_be`, `u32::to_ne_bytes` (`endian`), `str::to_lowercase`,
  `str::parse::<u64>` (`text`), `usize::is_power_of_two` (`pagesize`).

The doc comment of each such item says what is believed of it. What clap makes of given
arguments, the lower case of texts beyond ASCII, and the wording of the errors of uuid and std
have names in the contracts and no definition. The program under `app/` is not verified.
